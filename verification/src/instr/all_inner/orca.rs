//! Routing of Orca Whirlpool inner instructions (self-CPI event logs) by their
//! 16-byte discriminator.

use crate::bytes::bytes_eq;
use crate::events::{DexEvent, EventKind};
use crate::logs::event_body::{parse_event_body, routed_result};
use crate::types::EventMetadata;
use vstd::prelude::*;

pub mod discriminators;

verus! {

/// The event kind that a 16-byte Orca Whirlpool inner discriminator names.
pub open spec fn inner_kind_of(disc: Seq<u8>) -> Option<EventKind> {
    if disc == discriminators::TRADED@ {
        Some(EventKind::OrcaTraded)
    } else if disc == discriminators::LIQUIDITY_INCREASED@ {
        Some(EventKind::OrcaLiquidityIncreased)
    } else if disc == discriminators::LIQUIDITY_DECREASED@ {
        Some(EventKind::OrcaLiquidityDecreased)
    } else if disc == discriminators::POOL_INITIALIZED@ {
        Some(EventKind::OrcaPoolInitialized)
    } else {
        None
    }
}

/// The inner discriminator of each Orca Whirlpool event kind: the constant named
/// after the event.
pub open spec fn kind_discriminator(kind: EventKind) -> Option<Seq<u8>> {
    match kind {
        EventKind::OrcaTraded => Some(discriminators::TRADED@),
        EventKind::OrcaLiquidityIncreased => Some(discriminators::LIQUIDITY_INCREASED@),
        EventKind::OrcaLiquidityDecreased => Some(discriminators::LIQUIDITY_DECREASED@),
        EventKind::OrcaPoolInitialized => Some(discriminators::POOL_INITIALIZED@),
        _ => None,
    }
}

/// The event kind named by `disc`.
pub fn inner_kind(disc: &[u8]) -> (r: Option<EventKind>)
    ensures
        r == inner_kind_of(disc@),
{
    if bytes_eq(disc, &discriminators::TRADED) {
        Some(EventKind::OrcaTraded)
    } else if bytes_eq(disc, &discriminators::LIQUIDITY_INCREASED) {
        Some(EventKind::OrcaLiquidityIncreased)
    } else if bytes_eq(disc, &discriminators::LIQUIDITY_DECREASED) {
        Some(EventKind::OrcaLiquidityDecreased)
    } else if bytes_eq(disc, &discriminators::POOL_INITIALIZED) {
        Some(EventKind::OrcaPoolInitialized)
    } else {
        None
    }
}

/// Decodes a Orca Whirlpool inner instruction: the discriminator selects the
/// event kind, `data` is the event body. `None` for an unknown
/// discriminator.
pub fn parse(disc: &[u8; 16], data: &[u8], metadata: EventMetadata) -> (r: Option<DexEvent>)
    ensures
        routed_result(inner_kind_of(disc@), data@, metadata, r),
{
    match inner_kind(disc) {
        Some(kind) => parse_event_body(kind, data, metadata),
        None => None,
    }
}

} // verus!
