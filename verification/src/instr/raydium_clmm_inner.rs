//! Routing of Raydium CLMM inner instructions (self-CPI event logs) by their
//! 16-byte discriminator to the event body decoders.

use crate::bytes::bytes_eq;
use crate::events::{DexEvent, EventKind};
use crate::logs::raydium_clmm::{clmm_parse_result, parse_clmm_event};
use crate::types::EventMetadata;
use vstd::prelude::*;

pub mod discriminators;

verus! {

/// The event kind that a 16-byte Raydium CLMM inner discriminator names.
pub open spec fn clmm_inner_kind_of(disc: Seq<u8>) -> Option<EventKind> {
    if disc == discriminators::SWAP@ {
        Some(EventKind::RaydiumClmmSwap)
    } else if disc == discriminators::INCREASE_LIQUIDITY@ {
        Some(EventKind::RaydiumClmmIncreaseLiquidity)
    } else if disc == discriminators::DECREASE_LIQUIDITY@ {
        Some(EventKind::RaydiumClmmDecreaseLiquidity)
    } else if disc == discriminators::LIQUIDITY_CHANGE@ {
        Some(EventKind::RaydiumClmmLiquidityChange)
    } else if disc == discriminators::CONFIG_CHANGE@ {
        Some(EventKind::RaydiumClmmConfigChange)
    } else if disc == discriminators::CREATE_PERSONAL_POSITION@ {
        Some(EventKind::RaydiumClmmCreatePersonalPosition)
    } else if disc == discriminators::LIQUIDITY_CALCULATE@ {
        Some(EventKind::RaydiumClmmLiquidityCalculate)
    } else if disc == discriminators::OPEN_LIMIT_ORDER@ {
        Some(EventKind::RaydiumClmmOpenLimitOrder)
    } else if disc == discriminators::INCREASE_LIMIT_ORDER@ {
        Some(EventKind::RaydiumClmmIncreaseLimitOrder)
    } else if disc == discriminators::DECREASE_LIMIT_ORDER@ {
        Some(EventKind::RaydiumClmmDecreaseLimitOrder)
    } else if disc == discriminators::SETTLE_LIMIT_ORDER@ {
        Some(EventKind::RaydiumClmmSettleLimitOrder)
    } else if disc == discriminators::UPDATE_REWARD_INFOS@ {
        Some(EventKind::RaydiumClmmUpdateRewardInfos)
    } else if disc == discriminators::CREATE_POOL@ {
        Some(EventKind::RaydiumClmmCreatePool)
    } else if disc == discriminators::COLLECT_PERSONAL_FEE@ {
        Some(EventKind::RaydiumClmmCollectPersonalFee)
    } else if disc == discriminators::COLLECT_PROTOCOL_FEE@ {
        Some(EventKind::RaydiumClmmCollectProtocolFee)
    } else {
        None
    }
}

/// The event kind named by `disc`.
pub fn clmm_inner_kind(disc: &[u8]) -> (r: Option<EventKind>)
    ensures
        r == clmm_inner_kind_of(disc@),
{
    if bytes_eq(disc, &discriminators::SWAP) {
        Some(EventKind::RaydiumClmmSwap)
    } else if bytes_eq(disc, &discriminators::INCREASE_LIQUIDITY) {
        Some(EventKind::RaydiumClmmIncreaseLiquidity)
    } else if bytes_eq(disc, &discriminators::DECREASE_LIQUIDITY) {
        Some(EventKind::RaydiumClmmDecreaseLiquidity)
    } else if bytes_eq(disc, &discriminators::LIQUIDITY_CHANGE) {
        Some(EventKind::RaydiumClmmLiquidityChange)
    } else if bytes_eq(disc, &discriminators::CONFIG_CHANGE) {
        Some(EventKind::RaydiumClmmConfigChange)
    } else if bytes_eq(disc, &discriminators::CREATE_PERSONAL_POSITION) {
        Some(EventKind::RaydiumClmmCreatePersonalPosition)
    } else if bytes_eq(disc, &discriminators::LIQUIDITY_CALCULATE) {
        Some(EventKind::RaydiumClmmLiquidityCalculate)
    } else if bytes_eq(disc, &discriminators::OPEN_LIMIT_ORDER) {
        Some(EventKind::RaydiumClmmOpenLimitOrder)
    } else if bytes_eq(disc, &discriminators::INCREASE_LIMIT_ORDER) {
        Some(EventKind::RaydiumClmmIncreaseLimitOrder)
    } else if bytes_eq(disc, &discriminators::DECREASE_LIMIT_ORDER) {
        Some(EventKind::RaydiumClmmDecreaseLimitOrder)
    } else if bytes_eq(disc, &discriminators::SETTLE_LIMIT_ORDER) {
        Some(EventKind::RaydiumClmmSettleLimitOrder)
    } else if bytes_eq(disc, &discriminators::UPDATE_REWARD_INFOS) {
        Some(EventKind::RaydiumClmmUpdateRewardInfos)
    } else if bytes_eq(disc, &discriminators::CREATE_POOL) {
        Some(EventKind::RaydiumClmmCreatePool)
    } else if bytes_eq(disc, &discriminators::COLLECT_PERSONAL_FEE) {
        Some(EventKind::RaydiumClmmCollectPersonalFee)
    } else if bytes_eq(disc, &discriminators::COLLECT_PROTOCOL_FEE) {
        Some(EventKind::RaydiumClmmCollectProtocolFee)
    } else {
        None
    }
}

/// Decodes a Raydium CLMM inner instruction: the discriminator selects the
/// event kind, `data` is the event body. `None` for an unknown
/// discriminator.
pub fn parse_raydium_clmm_inner_instruction(
    discriminator: &[u8; 16],
    data: &[u8],
    metadata: EventMetadata,
) -> (r: Option<DexEvent>)
    ensures
        match clmm_inner_kind_of(discriminator@) {
            Some(kind) => clmm_parse_result(kind, data@, metadata, r),
            None => r is None,
        },
{
    match clmm_inner_kind(discriminator) {
        Some(kind) => parse_clmm_event(kind, data, metadata),
        None => None,
    }
}

} // verus!
