//! Event-body decoders of the pump-fees program.

use crate::bytes::{le_at, read_i64_le, read_pubkey, to_signed};
use crate::events::{DexEvent, PumpFeesUpdateAdminEvent};
use crate::types::EventMetadata;
use vstd::prelude::*;

verus! {

/// Byte length of an `UpdateAdmin` event body: an `i64` timestamp and two keys.
pub const UPDATE_ADMIN_EVENT_LEN: usize = 72;

/// `e` holds the fields of an `UpdateAdmin` event body laid out in `data`.
pub open spec fn update_admin_decoded(e: PumpFeesUpdateAdminEvent, data: Seq<u8>, metadata: EventMetadata) -> bool {
    &&& e.metadata == metadata
    &&& e.timestamp == to_signed(le_at(data, 0, 8), 8)
    &&& e.old_admin@ == data.subrange(8, 40)
    &&& e.new_admin@ == data.subrange(40, 72)
}

/// Decodes a pump-fees `UpdateAdmin` event body (the bytes after the
/// discriminator). `None` exactly when the body is shorter than
/// [`UPDATE_ADMIN_EVENT_LEN`]; bytes past that length are ignored.
pub fn parse_update_admin_from_data(data: &[u8], metadata: EventMetadata) -> (r: Option<DexEvent>)
    ensures
        r is Some <==> data@.len() >= UPDATE_ADMIN_EVENT_LEN,
        r matches Some(ev) ==> ev matches DexEvent::PumpFeesUpdateAdmin(e)
            && update_admin_decoded(e, data@, metadata),
{
    let timestamp = read_i64_le(data, 0)?;
    let old_admin = read_pubkey(data, 8)?;
    let new_admin = read_pubkey(data, 40)?;
    Some(DexEvent::PumpFeesUpdateAdmin(PumpFeesUpdateAdminEvent { metadata, timestamp, old_admin, new_admin }))
}

} // verus!
