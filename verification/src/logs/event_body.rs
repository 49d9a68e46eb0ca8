//! Dispatch from an event kind to its body decoder.

use crate::events::{DexEvent, EventKind, UndecodedEvent};
use crate::logs::pump_fees::{parse_update_admin_from_data, update_admin_decoded, UPDATE_ADMIN_EVENT_LEN};
use crate::logs::raydium_clmm::{clmm_body_len, clmm_parse_result, parse_clmm_event};
use crate::types::EventMetadata;
use vstd::prelude::*;

verus! {

/// What decoding `data` as a body of kind `kind` yields. Raydium CLMM bodies
/// and the pump-fees `UpdateAdmin` body are decoded field by field, into an
/// event exactly when the body is long enough; for the other kinds this crate
/// has no body decoder, and the event comes back undecoded, carrying its
/// kind, metadata and body bytes.
pub open spec fn event_body_result(kind: EventKind, data: Seq<u8>, metadata: EventMetadata, r: Option<DexEvent>) -> bool {
    if clmm_body_len(kind) is Some {
        clmm_parse_result(kind, data, metadata, r)
    } else if kind == EventKind::PumpFeesUpdateAdmin {
        &&& (r is Some <==> data.len() >= UPDATE_ADMIN_EVENT_LEN)
        &&& (r matches Some(ev) ==> ev matches DexEvent::PumpFeesUpdateAdmin(e)
            && update_admin_decoded(e, data, metadata))
    } else {
        r matches Some(DexEvent::Undecoded(u)) && u.kind == kind && u.metadata == metadata && u.data@ == data
    }
}

/// What routing a body by an optional event kind yields: the decoded body
/// when a kind was named, nothing otherwise.
pub open spec fn routed_result(kind: Option<EventKind>, data: Seq<u8>, metadata: EventMetadata, r: Option<DexEvent>) -> bool {
    match kind {
        Some(k) => event_body_result(k, data, metadata, r),
        None => r is None,
    }
}

/// Decodes `data` as the body of an event of kind `kind`.
pub fn parse_event_body(kind: EventKind, data: &[u8], metadata: EventMetadata) -> (r: Option<DexEvent>)
    ensures
        event_body_result(kind, data@, metadata, r),
{
    match kind {
        EventKind::RaydiumClmmSwap
        | EventKind::RaydiumClmmIncreaseLiquidity
        | EventKind::RaydiumClmmDecreaseLiquidity
        | EventKind::RaydiumClmmLiquidityChange
        | EventKind::RaydiumClmmConfigChange
        | EventKind::RaydiumClmmCreatePersonalPosition
        | EventKind::RaydiumClmmLiquidityCalculate
        | EventKind::RaydiumClmmOpenLimitOrder
        | EventKind::RaydiumClmmIncreaseLimitOrder
        | EventKind::RaydiumClmmDecreaseLimitOrder
        | EventKind::RaydiumClmmSettleLimitOrder
        | EventKind::RaydiumClmmUpdateRewardInfos
        | EventKind::RaydiumClmmCreatePool
        | EventKind::RaydiumClmmCollectPersonalFee
        | EventKind::RaydiumClmmCollectProtocolFee => parse_clmm_event(kind, data, metadata),
        EventKind::PumpFeesUpdateAdmin => parse_update_admin_from_data(data, metadata),
        _ => Some(
            DexEvent::Undecoded(
                UndecodedEvent { kind, metadata, data: vstd::slice::slice_to_vec(data) },
            ),
        ),
    }
}

} // verus!
