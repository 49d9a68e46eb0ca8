//! Routing of Meteora AMM inner instructions (self-CPI event logs) by their
//! 16-byte discriminator.

use crate::bytes::bytes_eq;
use crate::events::{DexEvent, EventKind};
use crate::logs::event_body::{parse_event_body, routed_result};
use crate::types::EventMetadata;
use vstd::prelude::*;

pub mod discriminators;

verus! {

/// The event kind that a 16-byte Meteora AMM inner discriminator names.
pub open spec fn inner_kind_of(disc: Seq<u8>) -> Option<EventKind> {
    if disc == discriminators::SWAP@ {
        Some(EventKind::MeteoraAmmSwap)
    } else if disc == discriminators::ADD_LIQUIDITY@ {
        Some(EventKind::MeteoraAmmAddLiquidity)
    } else if disc == discriminators::REMOVE_LIQUIDITY@ {
        Some(EventKind::MeteoraAmmRemoveLiquidity)
    } else if disc == discriminators::BOOTSTRAP_LIQUIDITY@ {
        Some(EventKind::MeteoraAmmBootstrapLiquidity)
    } else if disc == discriminators::POOL_CREATED@ {
        Some(EventKind::MeteoraAmmPoolCreated)
    } else if disc == discriminators::SET_POOL_FEES@ {
        Some(EventKind::MeteoraAmmSetPoolFees)
    } else {
        None
    }
}

/// The inner discriminator of each Meteora AMM event kind: the constant named
/// after the event.
pub open spec fn kind_discriminator(kind: EventKind) -> Option<Seq<u8>> {
    match kind {
        EventKind::MeteoraAmmSwap => Some(discriminators::SWAP@),
        EventKind::MeteoraAmmAddLiquidity => Some(discriminators::ADD_LIQUIDITY@),
        EventKind::MeteoraAmmRemoveLiquidity => Some(discriminators::REMOVE_LIQUIDITY@),
        EventKind::MeteoraAmmBootstrapLiquidity => Some(discriminators::BOOTSTRAP_LIQUIDITY@),
        EventKind::MeteoraAmmPoolCreated => Some(discriminators::POOL_CREATED@),
        EventKind::MeteoraAmmSetPoolFees => Some(discriminators::SET_POOL_FEES@),
        _ => None,
    }
}

/// The event kind named by `disc`.
pub fn inner_kind(disc: &[u8]) -> (r: Option<EventKind>)
    ensures
        r == inner_kind_of(disc@),
{
    if bytes_eq(disc, &discriminators::SWAP) {
        Some(EventKind::MeteoraAmmSwap)
    } else if bytes_eq(disc, &discriminators::ADD_LIQUIDITY) {
        Some(EventKind::MeteoraAmmAddLiquidity)
    } else if bytes_eq(disc, &discriminators::REMOVE_LIQUIDITY) {
        Some(EventKind::MeteoraAmmRemoveLiquidity)
    } else if bytes_eq(disc, &discriminators::BOOTSTRAP_LIQUIDITY) {
        Some(EventKind::MeteoraAmmBootstrapLiquidity)
    } else if bytes_eq(disc, &discriminators::POOL_CREATED) {
        Some(EventKind::MeteoraAmmPoolCreated)
    } else if bytes_eq(disc, &discriminators::SET_POOL_FEES) {
        Some(EventKind::MeteoraAmmSetPoolFees)
    } else {
        None
    }
}

/// Decodes a Meteora AMM inner instruction: the discriminator selects the
/// event kind, `data` is the event body. `None` for an unknown
/// discriminator.
pub fn parse(disc: &[u8; 16], data: &[u8], metadata: EventMetadata) -> (r: Option<DexEvent>)
    ensures
        routed_result(inner_kind_of(disc@), data@, metadata, r),
{
    match inner_kind(disc) {
        Some(kind) => parse_event_body(kind, data, metadata),
        None => None,
    }
}

} // verus!
