//! Plain value types shared by the decoders: keys, signatures, event
//! metadata and account snapshots.

use vstd::prelude::*;

verus! {

/// The all-zero 32-byte key.
pub open spec fn zero_key() -> Seq<u8> {
    Seq::new(32, |i: int| 0u8)
}

/// A 32-byte Solana public key.
#[derive(Clone, Copy, Debug, PartialEq, Eq)]
pub struct Pubkey(pub [u8; 32]);

impl View for Pubkey {
    type V = Seq<u8>;

    open spec fn view(&self) -> Seq<u8> {
        self.0@
    }
}

impl Pubkey {
    /// The all-zero key (what `Pubkey::default()` is on chain).
    pub fn zero() -> (k: Pubkey)
        ensures
            k@ == zero_key(),
    {
        let k = Pubkey([0u8; 32]);
        assert(k@ =~= zero_key());
        k
    }

    pub fn new_from_array(bytes: [u8; 32]) -> (k: Pubkey)
        ensures
            k@ == bytes@,
    {
        Pubkey(bytes)
    }
}

impl Default for Pubkey {
    fn default() -> (k: Pubkey)
        ensures
            k@ == zero_key(),
    {
        Pubkey::zero()
    }
}

/// A 64-byte transaction signature.
#[derive(Clone, Copy, Debug, PartialEq, Eq)]
pub struct Signature(pub [u8; 64]);

impl View for Signature {
    type V = Seq<u8>;

    open spec fn view(&self) -> Seq<u8> {
        self.0@
    }
}

impl Default for Signature {
    fn default() -> (s: Signature)
        ensures
            s@ == Seq::new(64, |i: int| 0u8),
    {
        let s = Signature([0u8; 64]);
        assert(s@ =~= Seq::new(64, |i: int| 0u8));
        s
    }
}

/// A 32-byte block hash.
#[derive(Clone, Copy, Debug, PartialEq, Eq)]
pub struct Hash(pub [u8; 32]);

/// Where and when an event was seen.
#[derive(Clone, Copy, Debug, PartialEq, Eq)]
pub struct EventMetadata {
    pub signature: Signature,
    pub slot: u64,
    pub tx_index: u64,
    pub block_time_us: i64,
    pub grpc_recv_us: i64,
    pub recent_blockhash: Option<Hash>,
}

impl Default for EventMetadata {
    fn default() -> (m: EventMetadata)
        ensures
            m.signature@ == Seq::new(64, |i: int| 0u8),
            m.slot == 0,
            m.tx_index == 0,
            m.block_time_us == 0,
            m.grpc_recv_us == 0,
            m.recent_blockhash is None,
    {
        EventMetadata {
            signature: Signature::default(),
            slot: 0,
            tx_index: 0,
            block_time_us: 0,
            grpc_recv_us: 0,
            recent_blockhash: None,
        }
    }
}

/// The metadata that `create_metadata_simple` builds: a missing block time
/// reads as 0 and no block hash is known.
pub open spec fn simple_metadata(
    signature: Signature,
    slot: u64,
    tx_index: u64,
    block_time_us: Option<i64>,
    grpc_recv_us: i64,
) -> EventMetadata {
    EventMetadata {
        signature,
        slot,
        tx_index,
        block_time_us: match block_time_us {
            Some(t) => t,
            None => 0,
        },
        grpc_recv_us,
        recent_blockhash: None,
    }
}

/// Builds event metadata from a transaction's coordinates. The pool key is
/// accepted for call-site symmetry; the metadata has no field for it.
/// The metadata of an event seen in a transaction carries the
/// transaction's signature, slot, index and receive time, the block time when
/// there is one (else 0), and no blockhash.
pub proof fn law_simple_metadata_fields(
    signature: Signature,
    slot: u64,
    tx_index: u64,
    block_time_us: Option<i64>,
    grpc_recv_us: i64,
)
    ensures
        simple_metadata(signature, slot, tx_index, block_time_us, grpc_recv_us).signature == signature,
        simple_metadata(signature, slot, tx_index, block_time_us, grpc_recv_us).slot == slot,
        simple_metadata(signature, slot, tx_index, block_time_us, grpc_recv_us).tx_index == tx_index,
        simple_metadata(signature, slot, tx_index, block_time_us, grpc_recv_us).block_time_us == (match block_time_us {
            Some(t) => t,
            None => 0i64,
        }),
        simple_metadata(signature, slot, tx_index, block_time_us, grpc_recv_us).grpc_recv_us == grpc_recv_us,
        simple_metadata(signature, slot, tx_index, block_time_us, grpc_recv_us).recent_blockhash is None,
{
}

pub fn create_metadata_simple(
    signature: Signature,
    slot: u64,
    tx_index: u64,
    block_time_us: Option<i64>,
    pool: Pubkey,
    grpc_recv_us: i64,
) -> (m: EventMetadata)
    ensures
        m == simple_metadata(signature, slot, tx_index, block_time_us, grpc_recv_us),
{
    EventMetadata {
        signature,
        slot,
        tx_index,
        block_time_us: match block_time_us {
            Some(t) => t,
            None => 0,
        },
        grpc_recv_us,
        recent_blockhash: None,
    }
}

/// A snapshot of an on-chain account.
#[derive(Clone, Debug, PartialEq, Eq)]
pub struct AccountData {
    pub pubkey: Pubkey,
    pub owner: Pubkey,
    pub data: Vec<u8>,
    pub executable: bool,
    pub lamports: u64,
    pub rent_epoch: u64,
}

} // verus!
