//! Routing of pump-fees inner instructions. An Anchor event CPI carries the
//! 8-byte event discriminator either after the event-CPI tag or before the
//! 8-byte event suffix.

use crate::bytes::{bytes_eq, read_u8_array};
use crate::events::{DexEvent, EventKind};
use crate::logs::event_body::{parse_event_body, routed_result};
use crate::types::EventMetadata;
use vstd::prelude::*;

verus! {

/// The Anchor event-CPI instruction tag.
pub const EVENT_CPI_PREFIX: [u8; 8] = [228, 69, 165, 46, 81, 203, 154, 29];

/// The 8 bytes that follow an event discriminator in the suffix layout.
pub const EVENT_CPI_SUFFIX: [u8; 8] = [155, 167, 108, 32, 122, 76, 173, 64];

// Event discriminators of the pump-fees program (the first 8 bytes of
// `sha256("event:<EventName>")`).
pub const CREATE_FEE_SHARING_CONFIG_EVENT_DISC: [u8; 8] = [133, 105, 170, 200, 184, 116, 251, 88];
pub const INITIALIZE_FEE_CONFIG_EVENT_DISC: [u8; 8] = [89, 138, 244, 230, 10, 56, 226, 126];
pub const RESET_FEE_SHARING_CONFIG_EVENT_DISC: [u8; 8] = [203, 204, 151, 226, 120, 55, 214, 243];
pub const REVOKE_FEE_SHARING_AUTHORITY_EVENT_DISC: [u8; 8] = [114, 23, 101, 60, 14, 190, 153, 62];
pub const TRANSFER_FEE_SHARING_AUTHORITY_EVENT_DISC: [u8; 8] = [124, 143, 198, 245, 77, 184, 8, 236];
pub const UPDATE_ADMIN_EVENT_DISC: [u8; 8] = [225, 152, 171, 87, 246, 63, 66, 234];
pub const UPDATE_FEE_CONFIG_EVENT_DISC: [u8; 8] = [90, 23, 65, 35, 62, 244, 188, 208];
pub const UPDATE_FEE_SHARES_EVENT_DISC: [u8; 8] = [21, 186, 196, 184, 91, 228, 225, 203];
pub const UPSERT_FEE_TIERS_EVENT_DISC: [u8; 8] = [171, 89, 169, 187, 122, 186, 33, 204];

/// The event discriminator that a 16-byte inner discriminator carries: the
/// second half after the event-CPI tag, else the first half before the
/// suffix.
pub open spec fn event_discriminator_of(disc: Seq<u8>) -> Option<Seq<u8>> {
    if disc.subrange(0, 8) == EVENT_CPI_PREFIX@ {
        Some(disc.subrange(8, 16))
    } else if disc.subrange(8, 16) == EVENT_CPI_SUFFIX@ {
        Some(disc.subrange(0, 8))
    } else {
        None
    }
}

/// Extracts the event discriminator from a 16-byte inner discriminator.
pub fn event_discriminator(disc: &[u8; 16]) -> (r: Option<[u8; 8]>)
    ensures
        match event_discriminator_of(disc@) {
            Some(d) => r matches Some(a) && a@ == d,
            None => r is None,
        },
{
    let head = vstd::slice::slice_subrange(disc, 0, 8);
    let tail = vstd::slice::slice_subrange(disc, 8, 16);
    let mut offset: usize;
    if bytes_eq(head, &EVENT_CPI_PREFIX) {
        offset = 8;
    } else if bytes_eq(tail, &EVENT_CPI_SUFFIX) {
        offset = 0;
    } else {
        return None;
    }
    read_u8_array::<8>(disc, &mut offset)
}

/// The pump-fees event kind that an 8-byte event discriminator names.
pub open spec fn pump_fees_kind_of(disc: Seq<u8>) -> Option<EventKind> {
    if disc == CREATE_FEE_SHARING_CONFIG_EVENT_DISC@ {
        Some(EventKind::PumpFeesCreateFeeSharingConfig)
    } else if disc == INITIALIZE_FEE_CONFIG_EVENT_DISC@ {
        Some(EventKind::PumpFeesInitializeFeeConfig)
    } else if disc == RESET_FEE_SHARING_CONFIG_EVENT_DISC@ {
        Some(EventKind::PumpFeesResetFeeSharingConfig)
    } else if disc == REVOKE_FEE_SHARING_AUTHORITY_EVENT_DISC@ {
        Some(EventKind::PumpFeesRevokeFeeSharingAuthority)
    } else if disc == TRANSFER_FEE_SHARING_AUTHORITY_EVENT_DISC@ {
        Some(EventKind::PumpFeesTransferFeeSharingAuthority)
    } else if disc == UPDATE_ADMIN_EVENT_DISC@ {
        Some(EventKind::PumpFeesUpdateAdmin)
    } else if disc == UPDATE_FEE_CONFIG_EVENT_DISC@ {
        Some(EventKind::PumpFeesUpdateFeeConfig)
    } else if disc == UPDATE_FEE_SHARES_EVENT_DISC@ {
        Some(EventKind::PumpFeesUpdateFeeShares)
    } else if disc == UPSERT_FEE_TIERS_EVENT_DISC@ {
        Some(EventKind::PumpFeesUpsertFeeTiers)
    } else {
        None
    }
}

/// The pump-fees event kind named by `disc`.
pub fn pump_fees_kind(disc: &[u8]) -> (r: Option<EventKind>)
    ensures
        r == pump_fees_kind_of(disc@),
{
    if bytes_eq(disc, &CREATE_FEE_SHARING_CONFIG_EVENT_DISC) {
        Some(EventKind::PumpFeesCreateFeeSharingConfig)
    } else if bytes_eq(disc, &INITIALIZE_FEE_CONFIG_EVENT_DISC) {
        Some(EventKind::PumpFeesInitializeFeeConfig)
    } else if bytes_eq(disc, &RESET_FEE_SHARING_CONFIG_EVENT_DISC) {
        Some(EventKind::PumpFeesResetFeeSharingConfig)
    } else if bytes_eq(disc, &REVOKE_FEE_SHARING_AUTHORITY_EVENT_DISC) {
        Some(EventKind::PumpFeesRevokeFeeSharingAuthority)
    } else if bytes_eq(disc, &TRANSFER_FEE_SHARING_AUTHORITY_EVENT_DISC) {
        Some(EventKind::PumpFeesTransferFeeSharingAuthority)
    } else if bytes_eq(disc, &UPDATE_ADMIN_EVENT_DISC) {
        Some(EventKind::PumpFeesUpdateAdmin)
    } else if bytes_eq(disc, &UPDATE_FEE_CONFIG_EVENT_DISC) {
        Some(EventKind::PumpFeesUpdateFeeConfig)
    } else if bytes_eq(disc, &UPDATE_FEE_SHARES_EVENT_DISC) {
        Some(EventKind::PumpFeesUpdateFeeShares)
    } else if bytes_eq(disc, &UPSERT_FEE_TIERS_EVENT_DISC) {
        Some(EventKind::PumpFeesUpsertFeeTiers)
    } else {
        None
    }
}

/// The pump-fees event kind that a 16-byte inner discriminator names.
pub open spec fn inner_kind_of(disc: Seq<u8>) -> Option<EventKind> {
    match event_discriminator_of(disc) {
        Some(d) => pump_fees_kind_of(d),
        None => None,
    }
}

/// Decodes a pump-fees inner instruction in either event-CPI layout;
/// `None` when the discriminator names no pump-fees event.
pub fn parse(disc: &[u8; 16], data: &[u8], metadata: EventMetadata) -> (r: Option<DexEvent>)
    ensures
        routed_result(inner_kind_of(disc@), data@, metadata, r),
{
    let event_disc = event_discriminator(disc)?;
    match pump_fees_kind(&event_disc) {
        Some(kind) => parse_event_body(kind, data, metadata),
        None => None,
    }
}

} // verus!
