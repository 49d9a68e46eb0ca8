//! Routing of Raydium AMM V4 inner instructions (self-CPI event logs) by their
//! 16-byte discriminator.

use crate::bytes::bytes_eq;
use crate::events::{DexEvent, EventKind};
use crate::logs::event_body::{parse_event_body, routed_result};
use crate::types::EventMetadata;
use vstd::prelude::*;

pub mod discriminators;

verus! {

/// The event kind that a 16-byte Raydium AMM V4 inner discriminator names.
pub open spec fn inner_kind_of(disc: Seq<u8>) -> Option<EventKind> {
    if disc == discriminators::SWAP_BASE_IN@ {
        Some(EventKind::RaydiumAmmSwapBaseIn)
    } else if disc == discriminators::SWAP_BASE_OUT@ {
        Some(EventKind::RaydiumAmmSwapBaseOut)
    } else if disc == discriminators::DEPOSIT@ {
        Some(EventKind::RaydiumAmmDeposit)
    } else if disc == discriminators::WITHDRAW@ {
        Some(EventKind::RaydiumAmmWithdraw)
    } else if disc == discriminators::INITIALIZE2@ {
        Some(EventKind::RaydiumAmmInitialize2)
    } else if disc == discriminators::WITHDRAW_PNL@ {
        Some(EventKind::RaydiumAmmWithdrawPnl)
    } else {
        None
    }
}

/// The inner discriminator of each Raydium AMM V4 event kind: the constant named
/// after the event.
pub open spec fn kind_discriminator(kind: EventKind) -> Option<Seq<u8>> {
    match kind {
        EventKind::RaydiumAmmSwapBaseIn => Some(discriminators::SWAP_BASE_IN@),
        EventKind::RaydiumAmmSwapBaseOut => Some(discriminators::SWAP_BASE_OUT@),
        EventKind::RaydiumAmmDeposit => Some(discriminators::DEPOSIT@),
        EventKind::RaydiumAmmWithdraw => Some(discriminators::WITHDRAW@),
        EventKind::RaydiumAmmInitialize2 => Some(discriminators::INITIALIZE2@),
        EventKind::RaydiumAmmWithdrawPnl => Some(discriminators::WITHDRAW_PNL@),
        _ => None,
    }
}

/// The event kind named by `disc`.
pub fn inner_kind(disc: &[u8]) -> (r: Option<EventKind>)
    ensures
        r == inner_kind_of(disc@),
{
    if bytes_eq(disc, &discriminators::SWAP_BASE_IN) {
        Some(EventKind::RaydiumAmmSwapBaseIn)
    } else if bytes_eq(disc, &discriminators::SWAP_BASE_OUT) {
        Some(EventKind::RaydiumAmmSwapBaseOut)
    } else if bytes_eq(disc, &discriminators::DEPOSIT) {
        Some(EventKind::RaydiumAmmDeposit)
    } else if bytes_eq(disc, &discriminators::WITHDRAW) {
        Some(EventKind::RaydiumAmmWithdraw)
    } else if bytes_eq(disc, &discriminators::INITIALIZE2) {
        Some(EventKind::RaydiumAmmInitialize2)
    } else if bytes_eq(disc, &discriminators::WITHDRAW_PNL) {
        Some(EventKind::RaydiumAmmWithdrawPnl)
    } else {
        None
    }
}

/// Decodes a Raydium AMM V4 inner instruction: the discriminator selects the
/// event kind, `data` is the event body. `None` for an unknown
/// discriminator.
pub fn parse(disc: &[u8; 16], data: &[u8], metadata: EventMetadata) -> (r: Option<DexEvent>)
    ensures
        routed_result(inner_kind_of(disc@), data@, metadata, r),
{
    match inner_kind(disc) {
        Some(kind) => parse_event_body(kind, data, metadata),
        None => None,
    }
}

} // verus!
