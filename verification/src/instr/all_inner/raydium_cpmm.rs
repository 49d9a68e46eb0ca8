//! Routing of Raydium CPMM inner instructions (self-CPI event logs) by their
//! 16-byte discriminator.

use crate::bytes::bytes_eq;
use crate::events::{DexEvent, EventKind};
use crate::logs::event_body::{parse_event_body, routed_result};
use crate::types::EventMetadata;
use vstd::prelude::*;

pub mod discriminators;

verus! {

/// The event kind that a 16-byte Raydium CPMM inner discriminator names.
pub open spec fn inner_kind_of(disc: Seq<u8>) -> Option<EventKind> {
    if disc == discriminators::SWAP_BASE_IN@ {
        Some(EventKind::RaydiumCpmmSwapBaseIn)
    } else if disc == discriminators::SWAP_BASE_OUT@ {
        Some(EventKind::RaydiumCpmmSwapBaseOut)
    } else if disc == discriminators::CREATE_POOL@ {
        Some(EventKind::RaydiumCpmmCreatePool)
    } else if disc == discriminators::DEPOSIT@ {
        Some(EventKind::RaydiumCpmmDeposit)
    } else if disc == discriminators::WITHDRAW@ {
        Some(EventKind::RaydiumCpmmWithdraw)
    } else {
        None
    }
}

/// The inner discriminator of each Raydium CPMM event kind: the constant named
/// after the event.
pub open spec fn kind_discriminator(kind: EventKind) -> Option<Seq<u8>> {
    match kind {
        EventKind::RaydiumCpmmSwapBaseIn => Some(discriminators::SWAP_BASE_IN@),
        EventKind::RaydiumCpmmSwapBaseOut => Some(discriminators::SWAP_BASE_OUT@),
        EventKind::RaydiumCpmmCreatePool => Some(discriminators::CREATE_POOL@),
        EventKind::RaydiumCpmmDeposit => Some(discriminators::DEPOSIT@),
        EventKind::RaydiumCpmmWithdraw => Some(discriminators::WITHDRAW@),
        _ => None,
    }
}

/// The event kind named by `disc`.
pub fn inner_kind(disc: &[u8]) -> (r: Option<EventKind>)
    ensures
        r == inner_kind_of(disc@),
{
    if bytes_eq(disc, &discriminators::SWAP_BASE_IN) {
        Some(EventKind::RaydiumCpmmSwapBaseIn)
    } else if bytes_eq(disc, &discriminators::SWAP_BASE_OUT) {
        Some(EventKind::RaydiumCpmmSwapBaseOut)
    } else if bytes_eq(disc, &discriminators::CREATE_POOL) {
        Some(EventKind::RaydiumCpmmCreatePool)
    } else if bytes_eq(disc, &discriminators::DEPOSIT) {
        Some(EventKind::RaydiumCpmmDeposit)
    } else if bytes_eq(disc, &discriminators::WITHDRAW) {
        Some(EventKind::RaydiumCpmmWithdraw)
    } else {
        None
    }
}

/// Decodes a Raydium CPMM inner instruction: the discriminator selects the
/// event kind, `data` is the event body. `None` for an unknown
/// discriminator.
pub fn parse(disc: &[u8; 16], data: &[u8], metadata: EventMetadata) -> (r: Option<DexEvent>)
    ensures
        routed_result(inner_kind_of(disc@), data@, metadata, r),
{
    match inner_kind(disc) {
        Some(kind) => parse_event_body(kind, data, metadata),
        None => None,
    }
}

} // verus!
