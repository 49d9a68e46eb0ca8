//! Resolving the account indices of a compiled instruction against the
//! transaction's static keys, into a fixed-size buffer.

use crate::bytes::{bytes_eq, starts_with};
use crate::types::Pubkey;
use vstd::prelude::*;

verus! {

/// Capacity of the account buffer.
pub const MAX_STACK_ACCOUNTS: usize = 32;

/// Every account index names one of the static keys.
pub open spec fn indices_valid(ix_accounts: Seq<u8>, key_count: int) -> bool {
    forall|j: int| 0 <= j < ix_accounts.len() ==> (#[trigger] ix_accounts[j]) < key_count
}

/// The first `n` slots of `out` hold the keys that the first `n` indices
/// name, the rest of `out` is as it was.
pub open spec fn filled_prefix(out: Seq<Pubkey>, before: Seq<Pubkey>, ix_accounts: Seq<u8>, static_keys: Seq<Pubkey>, n: int) -> bool {
    &&& out.len() == before.len()
    &&& forall|j: int| 0 <= j < n ==> #[trigger] out[j] == static_keys[ix_accounts[j] as int]
    &&& forall|j: int| n <= j < out.len() ==> #[trigger] out[j] == before[j]
}

/// Writing stopped after `k` keys: the first `k` indices name static keys,
/// and either the buffer is full or index `k` names no static key.
pub open spec fn stopped_at(ix_accounts: Seq<u8>, key_count: int, k: int) -> bool {
    &&& 0 <= k <= MAX_STACK_ACCOUNTS
    &&& k <= ix_accounts.len()
    &&& indices_valid(ix_accounts.subrange(0, k), key_count)
    &&& (k == MAX_STACK_ACCOUNTS || (k < ix_accounts.len() && ix_accounts[k] >= key_count))
}

/// The filled slots are the static keys that the indices name, in the
/// order of the indices; the other slots keep what they held.
pub proof fn law_filled_slots_follow_the_indices(
    out: Seq<Pubkey>,
    before: Seq<Pubkey>,
    ix_accounts: Seq<u8>,
    static_keys: Seq<Pubkey>,
    n: int,
)
    requires
        0 <= n <= ix_accounts.len(),
        n <= out.len(),
        filled_prefix(out, before, ix_accounts, static_keys, n),
    ensures
        out.subrange(0, n) == ix_accounts.subrange(0, n).map_values(|x: u8| static_keys[x as int]),
        out.subrange(n, out.len() as int) == before.subrange(n, before.len() as int),
{
    assert(out.subrange(0, n) =~= ix_accounts.subrange(0, n).map_values(|x: u8| static_keys[x as int]));
    assert(out.subrange(n, out.len() as int) =~= before.subrange(n, before.len() as int));
}

/// Writing stops at one place only.
pub proof fn lemma_stopped_at_unique(ix_accounts: Seq<u8>, key_count: int, k1: int, k2: int)
    requires
        stopped_at(ix_accounts, key_count, k1),
        stopped_at(ix_accounts, key_count, k2),
    ensures
        k1 == k2,
{
    if k1 < k2 {
        assert(ix_accounts.subrange(0, k2)[k1] == ix_accounts[k1]);
    } else if k2 < k1 {
        assert(ix_accounts.subrange(0, k1)[k2] == ix_accounts[k2]);
    }
}

/// Writes the keys that `ix_accounts` names into `out`, in order. `None`
/// when an index names no static key or there are more accounts than slots;
/// then the keys before the first bad index, up to the capacity, have been
/// written.
pub fn ix_pubkeys_with_cap(
    ix_accounts: &[u8],
    static_keys: &[Pubkey],
    out: &mut [Pubkey; 32],
) -> (r: Option<usize>)
    ensures
        r is Some <==> ix_accounts@.len() <= MAX_STACK_ACCOUNTS && indices_valid(ix_accounts@, static_keys@.len() as int),
        r matches Some(n) ==> n == ix_accounts@.len()
            && filled_prefix(final(out)@, old(out)@, ix_accounts@, static_keys@, n as int),
        r is None ==> exists|k: int| stopped_at(ix_accounts@, static_keys@.len() as int, k)
            && filled_prefix(final(out)@, old(out)@, ix_accounts@, static_keys@, k),
{
    let ghost before = out@;
    let mut n: usize = 0;
    while n < ix_accounts.len()
        invariant
            n <= ix_accounts@.len(),
            n <= MAX_STACK_ACCOUNTS,
            out@.len() == 32,
            before.len() == 32,
            before == old(out)@,
            indices_valid(ix_accounts@.subrange(0, n as int), static_keys@.len() as int),
            filled_prefix(out@, before, ix_accounts@, static_keys@, n as int),
        decreases ix_accounts@.len() - n,
    {
        let idx = ix_accounts[n] as usize;
        if idx >= static_keys.len() {
            assert(!indices_valid(ix_accounts@, static_keys@.len() as int)) by {
                assert(ix_accounts@[n as int] >= static_keys@.len());
            }
            assert(filled_prefix(out@, old(out)@, ix_accounts@, static_keys@, n as int));
            assert(stopped_at(ix_accounts@, static_keys@.len() as int, n as int));
            return None;
        }
        if n >= 32 {
            assert(filled_prefix(out@, old(out)@, ix_accounts@, static_keys@, n as int));
            assert(stopped_at(ix_accounts@, static_keys@.len() as int, n as int));
            return None;
        }
        out[n] = static_keys[idx];
        n += 1;
        assert(indices_valid(ix_accounts@.subrange(0, n as int), static_keys@.len() as int)) by {
            assert forall|j: int| 0 <= j < n implies (#[trigger] ix_accounts@.subrange(0, n as int)[j]) < static_keys@.len() by {
                if j < n - 1 {
                    assert(ix_accounts@.subrange(0, n - 1)[j] == ix_accounts@[j]);
                }
            }
        }
    }
    assert(ix_accounts@.subrange(0, n as int) =~= ix_accounts@);
    Some(n)
}

/// Instruction discriminator of the pump-fees `update_fee_shares`
/// instruction (the first 8 bytes of `sha256("global:update_fee_shares")`).
pub const UPDATE_FEE_SHARES_IX: [u8; 8] = [189, 13, 136, 99, 187, 164, 237, 35];

/// The outer instruction is a pump-fees `update_fee_shares` call: its program
/// index names the pump-fees program among the static keys, and its data
/// starts with the instruction discriminator.
pub open spec fn is_update_fee_shares(
    program_id_index: u8,
    pump_fees_program_id: Seq<u8>,
    data: Seq<u8>,
    static_keys: Seq<Pubkey>,
) -> bool {
    &&& program_id_index < static_keys.len()
    &&& static_keys[program_id_index as int]@ == pump_fees_program_id
    &&& 8 <= data.len()
    &&& data.subrange(0, 8) == UPDATE_FEE_SHARES_IX@
}

/// An outer instruction is taken for a pump-fees `update_fee_shares` call
/// exactly when its program index names a static key equal to the pump-fees
/// program id and its first 8 data bytes are the instruction discriminator,
/// byte for byte.
pub proof fn law_update_fee_shares_guard(
    program_id_index: u8,
    pump_fees_program_id: Seq<u8>,
    data: Seq<u8>,
    static_keys: Seq<Pubkey>,
)
    ensures
        is_update_fee_shares(program_id_index, pump_fees_program_id, data, static_keys) <==> (
        program_id_index < static_keys.len() && static_keys[program_id_index as int]@
            == pump_fees_program_id && data.len() >= 8 && forall|j: int|
            0 <= j < 8 ==> #[trigger] data[j] == UPDATE_FEE_SHARES_IX@[j]),
{
    if data.len() >= 8 && (forall|j: int| 0 <= j < 8 ==> #[trigger] data[j] == UPDATE_FEE_SHARES_IX@[j]) {
        assert(data.subrange(0, 8) =~= UPDATE_FEE_SHARES_IX@);
    }
    if data.len() >= 8 && data.subrange(0, 8) == UPDATE_FEE_SHARES_IX@ {
        assert forall|j: int| 0 <= j < 8 implies #[trigger] data[j] == UPDATE_FEE_SHARES_IX@[j] by {
            assert(data.subrange(0, 8)[j] == data[j]);
        }
    }
}

/// Resolves the accounts of an outer pump-fees `update_fee_shares`
/// instruction into `out`, for the instruction decoder that runs on them.
/// `Some(n)` (the first `n` slots of `out` hold the accounts) exactly when
/// the instruction is such a call and its account indices resolve within the
/// buffer; any other outer instruction leaves `out` untouched.
pub fn update_fee_shares_accounts(
    program_id_index: u8,
    pump_fees_program_id: &Pubkey,
    data: &[u8],
    ix_accounts: &[u8],
    static_keys: &[Pubkey],
    out: &mut [Pubkey; 32],
) -> (r: Option<usize>)
    ensures
        r is Some <==> is_update_fee_shares(program_id_index, pump_fees_program_id@, data@, static_keys@)
            && ix_accounts@.len() <= MAX_STACK_ACCOUNTS
            && indices_valid(ix_accounts@, static_keys@.len() as int),
        r matches Some(n) ==> n == ix_accounts@.len()
            && filled_prefix(final(out)@, old(out)@, ix_accounts@, static_keys@, n as int),
        !is_update_fee_shares(program_id_index, pump_fees_program_id@, data@, static_keys@)
            ==> final(out)@ == old(out)@,
        is_update_fee_shares(program_id_index, pump_fees_program_id@, data@, static_keys@) && r is None
            ==> exists|k: int| stopped_at(ix_accounts@, static_keys@.len() as int, k)
            && filled_prefix(final(out)@, old(out)@, ix_accounts@, static_keys@, k),
{
    let idx = program_id_index as usize;
    if idx >= static_keys.len() {
        return None;
    }
    let pid = static_keys[idx];
    if !bytes_eq(&pid.0, &pump_fees_program_id.0) {
        return None;
    }
    if !starts_with(data, &UPDATE_FEE_SHARES_IX) {
        return None;
    }
    ix_pubkeys_with_cap(ix_accounts, static_keys, out)
}

} // verus!
