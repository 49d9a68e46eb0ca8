//! Little-endian field readers over byte slices.

use crate::types::Pubkey;
use vstd::prelude::*;

verus! {

/// `256^n`.
pub open spec fn pow256(n: nat) -> nat
    decreases n,
{
    if n == 0 {
        1
    } else {
        256 * pow256((n - 1) as nat)
    }
}

/// The unsigned value of `s` read as a little-endian number.
pub open spec fn le_value(s: Seq<u8>) -> nat
    decreases s.len(),
{
    if s.len() == 0 {
        0
    } else {
        s[0] as nat + 256 * le_value(s.drop_first())
    }
}

/// The unsigned little-endian value of the `width` bytes of `data` at `offset`.
pub open spec fn le_at(data: Seq<u8>, offset: int, width: int) -> nat {
    le_value(data.subrange(offset, offset + width))
}

/// Two's complement reading of an unsigned value that is `width` bytes wide.
pub open spec fn to_signed(v: nat, width: nat) -> int {
    if v < pow256(width) / 2 {
        v as int
    } else {
        v - pow256(width)
    }
}

pub proof fn lemma_le_value_bound(s: Seq<u8>)
    ensures
        le_value(s) < pow256(s.len()),
    decreases s.len(),
{
    if s.len() > 0 {
        lemma_le_value_bound(s.drop_first());
    }
}

pub proof fn lemma_pow256_values()
    ensures
        pow256(1) == 0x100,
        pow256(2) == 0x1_0000,
        pow256(4) == 0x1_0000_0000,
        pow256(8) == 0x1_0000_0000_0000_0000,
        pow256(16) == 0x1_0000_0000_0000_0000_0000_0000_0000_0000,
{
    reveal_with_fuel(pow256, 17);
}

pub proof fn lemma_pow256_monotone(a: nat, b: nat)
    requires
        a <= b,
    ensures
        pow256(a) <= pow256(b),
    decreases b,
{
    if a < b {
        lemma_pow256_monotone(a, (b - 1) as nat);
    }
}

/// Byte `k` of the little-endian encoding of `x` (byte 0 is the least
/// significant).
pub open spec fn le_byte(x: nat, k: nat) -> u8
    decreases k,
{
    if k == 0 {
        (x % 256) as u8
    } else {
        le_byte(x / 256, (k - 1) as nat)
    }
}

/// The unsigned `width`-byte number whose two's-complement reading is `v`.
pub open spec fn to_unsigned(v: int, width: nat) -> nat {
    if v >= 0 {
        v as nat
    } else {
        (v + pow256(width)) as nat
    }
}

/// Bytes that are the little-endian encoding of `x` read back as `x`.
pub proof fn lemma_le_value_of_le_bytes(s: Seq<u8>, x: nat)
    requires
        x < pow256(s.len()),
        forall|j: int| 0 <= j < s.len() ==> s[j] == le_byte(x, j as nat),
    ensures
        le_value(s) == x,
    decreases s.len(),
{
    if s.len() > 0 {
        let t = s.drop_first();
        assert forall|j: int| 0 <= j < t.len() implies t[j] == le_byte(x / 256, j as nat) by {
            assert(t[j] == s[j + 1]);
            assert(le_byte(x, (j + 1) as nat) == le_byte(x / 256, j as nat));
        }
        assert(pow256(s.len()) == 256 * pow256(t.len()));
        assert(x / 256 < pow256(t.len()));
        lemma_le_value_of_le_bytes(t, x / 256);
        assert(s[0] == le_byte(x, 0));
    }
}

/// A signed value of a supported width survives the trip through its
/// unsigned encoding.
pub proof fn lemma_to_unsigned(v: int, width: nat)
    requires
        width == 4 || width == 8 || width == 16,
        -(pow256(width) / 2) <= v < pow256(width) / 2,
    ensures
        to_unsigned(v, width) < pow256(width),
        to_signed(to_unsigned(v, width), width) == v,
{
    lemma_pow256_values();
}

/// Reads `width` (at most 16) bytes at `offset` as a little-endian number.
fn read_le(data: &[u8], offset: usize, width: usize) -> (v: u128)
    requires
        width <= 16,
        offset + width <= data@.len(),
    ensures
        v == le_at(data@, offset as int, width as int),
{
    let mut acc: u128 = 0;
    let mut i: usize = width;
    proof {
        lemma_pow256_values();
        assert(data@.subrange(offset + width, offset + width) =~= Seq::<u8>::empty());
    }
    while i > 0
        invariant
            i <= width <= 16,
            offset + width <= data.len(),
            acc == le_value(data@.subrange(offset + i, offset + width)),
            acc < pow256((width - i) as nat),
            pow256(16) == 0x1_0000_0000_0000_0000_0000_0000_0000_0000,
        decreases i,
    {
        let ghost old_acc = acc;
        i = i - 1;
        proof {
            lemma_pow256_monotone((width - i) as nat, 16);
            let s = data@.subrange(offset + i, offset + width);
            assert(s.drop_first() =~= data@.subrange(offset + i + 1, offset + width));
            assert(s[0] == data@[offset + i]);
            assert(pow256((width - i) as nat) == 256 * pow256((width - i - 1) as nat));
            assert(acc * 256 + 255 < pow256((width - i) as nat) + 0);
        }
        let b = data[offset + i];
        acc = acc * 256 + b as u128;
    }
    acc
}

/// `data[offset]` as a byte; `None` when it is past the end.
pub fn read_u8(data: &[u8], offset: usize) -> (r: Option<u8>)
    ensures
        r is Some <==> offset < data.len(),
        r matches Some(v) ==> v == data@[offset as int],
{
    if offset < data.len() {
        Some(data[offset])
    } else {
        None
    }
}

/// `data[offset] == 1`; `None` when the byte is past the end.
pub fn read_bool(data: &[u8], offset: usize) -> (r: Option<bool>)
    ensures
        r is Some <==> offset < data.len(),
        r matches Some(b) ==> b == (data@[offset as int] == 1),
{
    if offset < data.len() {
        Some(data[offset] == 1)
    } else {
        None
    }
}

/// Whether `width` bytes starting at `offset` lie inside `data`.
fn fits(data: &[u8], offset: usize, width: usize) -> (b: bool)
    ensures
        b == (offset + width <= data@.len()),
{
    offset <= data.len() && data.len() - offset >= width
}

pub fn read_u16_le(data: &[u8], offset: usize) -> (r: Option<u16>)
    ensures
        r is Some <==> offset + 2 <= data.len(),
        r matches Some(v) ==> v == le_at(data@, offset as int, 2),
{
    if fits(data, offset, 2) {
        let v = read_le(data, offset, 2);
        proof {
            lemma_le_value_bound(data@.subrange(offset as int, offset + 2));
            lemma_pow256_values();
        }
        Some(v as u16)
    } else {
        None
    }
}

pub fn read_u32_le(data: &[u8], offset: usize) -> (r: Option<u32>)
    ensures
        r is Some <==> offset + 4 <= data.len(),
        r matches Some(v) ==> v == le_at(data@, offset as int, 4),
{
    if fits(data, offset, 4) {
        let v = read_le(data, offset, 4);
        proof {
            lemma_le_value_bound(data@.subrange(offset as int, offset + 4));
            lemma_pow256_values();
        }
        Some(v as u32)
    } else {
        None
    }
}

pub fn read_i32_le(data: &[u8], offset: usize) -> (r: Option<i32>)
    ensures
        r is Some <==> offset + 4 <= data.len(),
        r matches Some(v) ==> v == to_signed(le_at(data@, offset as int, 4), 4),
{
    match read_u32_le(data, offset) {
        Some(u) => {
            proof {
                lemma_pow256_values();
            }
            if u < 0x8000_0000 {
                Some(u as i32)
            } else {
                Some((u as i64 - 0x1_0000_0000) as i32)
            }
        },
        None => None,
    }
}

pub fn read_u64_le(data: &[u8], offset: usize) -> (r: Option<u64>)
    ensures
        r is Some <==> offset + 8 <= data.len(),
        r matches Some(v) ==> v == le_at(data@, offset as int, 8),
{
    if fits(data, offset, 8) {
        let v = read_le(data, offset, 8);
        proof {
            lemma_le_value_bound(data@.subrange(offset as int, offset + 8));
            lemma_pow256_values();
        }
        Some(v as u64)
    } else {
        None
    }
}

pub fn read_i64_le(data: &[u8], offset: usize) -> (r: Option<i64>)
    ensures
        r is Some <==> offset + 8 <= data.len(),
        r matches Some(v) ==> v == to_signed(le_at(data@, offset as int, 8), 8),
{
    match read_u64_le(data, offset) {
        Some(u) => {
            proof {
                lemma_pow256_values();
            }
            if u < 0x8000_0000_0000_0000 {
                Some(u as i64)
            } else {
                let m: u64 = u64::MAX - u;
                Some(-(m as i64) - 1)
            }
        },
        None => None,
    }
}

pub fn read_u128_le(data: &[u8], offset: usize) -> (r: Option<u128>)
    ensures
        r is Some <==> offset + 16 <= data.len(),
        r matches Some(v) ==> v == le_at(data@, offset as int, 16),
{
    if fits(data, offset, 16) {
        Some(read_le(data, offset, 16))
    } else {
        None
    }
}

pub fn read_i128_le(data: &[u8], offset: usize) -> (r: Option<i128>)
    ensures
        r is Some <==> offset + 16 <= data.len(),
        r matches Some(v) ==> v == to_signed(le_at(data@, offset as int, 16), 16),
{
    match read_u128_le(data, offset) {
        Some(u) => {
            proof {
                lemma_pow256_values();
            }
            if u < 0x8000_0000_0000_0000_0000_0000_0000_0000 {
                Some(u as i128)
            } else {
                let m: u128 = u128::MAX - u;
                Some(-(m as i128) - 1)
            }
        },
        None => None,
    }
}

/// The 32 bytes at `offset`, as a key; `None` when they run past the end.
pub fn read_pubkey(data: &[u8], offset: usize) -> (r: Option<Pubkey>)
    ensures
        r is Some <==> offset + 32 <= data.len(),
        r matches Some(k) ==> k@ == data@.subrange(offset as int, offset + 32),
{
    if !fits(data, offset, 32) {
        return None;
    }
    let mut bytes = [0u8; 32];
    let mut i: usize = 0;
    while i < 32
        invariant
            i <= 32,
            offset + 32 <= data.len(),
            bytes@.len() == 32,
            forall|j: int| 0 <= j < i ==> bytes@[j] == data@[offset + j],
        decreases 32 - i,
    {
        bytes[i] = data[offset + i];
        i += 1;
    }
    let k = Pubkey(bytes);
    assert(k@ =~= data@.subrange(offset as int, offset + 32));
    Some(k)
}

/// Whether two byte strings are equal.
pub fn bytes_eq(a: &[u8], b: &[u8]) -> (r: bool)
    ensures
        r == (a@ == b@),
{
    if a.len() != b.len() {
        return false;
    }
    let mut i: usize = 0;
    while i < a.len()
        invariant
            i <= a.len(),
            a.len() == b.len(),
            forall|j: int| 0 <= j < i ==> a@[j] == b@[j],
        decreases a.len() - i,
    {
        if a[i] != b[i] {
            assert(a@[i as int] != b@[i as int]);
            return false;
        }
        i += 1;
    }
    assert(a@ =~= b@);
    true
}

/// Whether `data` starts with `prefix`.
pub fn starts_with(data: &[u8], prefix: &[u8]) -> (r: bool)
    ensures
        r == (prefix@.len() <= data@.len() && data@.subrange(0, prefix@.len() as int) == prefix@),
{
    if prefix.len() > data.len() {
        return false;
    }
    let head = vstd::slice::slice_subrange(data, 0, prefix.len());
    bytes_eq(head, prefix)
}

// ---------------------------------------------------------------------------
// Readers that advance a cursor: on success the cursor moves past the field,
// on failure it stays where it was.
// ---------------------------------------------------------------------------

pub fn read_u8_at(data: &[u8], offset: &mut usize) -> (r: Option<u8>)
    ensures
        r is Some <==> *old(offset) + 1 <= data.len(),
        r matches Some(v) ==> v == data@[*old(offset) as int] && *final(offset) == *old(offset) + 1,
        r is None ==> *final(offset) == *old(offset),
{
    let v = read_u8(data, *offset)?;
    *offset += 1;
    Some(v)
}

pub fn read_u16_at(data: &[u8], offset: &mut usize) -> (r: Option<u16>)
    ensures
        r is Some <==> *old(offset) + 2 <= data.len(),
        r matches Some(v) ==> v == le_at(data@, *old(offset) as int, 2) && *final(offset) == *old(offset) + 2,
        r is None ==> *final(offset) == *old(offset),
{
    let v = read_u16_le(data, *offset)?;
    *offset += 2;
    Some(v)
}

pub fn read_u32_at(data: &[u8], offset: &mut usize) -> (r: Option<u32>)
    ensures
        r is Some <==> *old(offset) + 4 <= data.len(),
        r matches Some(v) ==> v == le_at(data@, *old(offset) as int, 4) && *final(offset) == *old(offset) + 4,
        r is None ==> *final(offset) == *old(offset),
{
    let v = read_u32_le(data, *offset)?;
    *offset += 4;
    Some(v)
}

pub fn read_i32_at(data: &[u8], offset: &mut usize) -> (r: Option<i32>)
    ensures
        r is Some <==> *old(offset) + 4 <= data.len(),
        r matches Some(v) ==> v == to_signed(le_at(data@, *old(offset) as int, 4), 4) && *final(offset) == *old(offset) + 4,
        r is None ==> *final(offset) == *old(offset),
{
    let v = read_i32_le(data, *offset)?;
    *offset += 4;
    Some(v)
}

pub fn read_u64_at(data: &[u8], offset: &mut usize) -> (r: Option<u64>)
    ensures
        r is Some <==> *old(offset) + 8 <= data.len(),
        r matches Some(v) ==> v == le_at(data@, *old(offset) as int, 8) && *final(offset) == *old(offset) + 8,
        r is None ==> *final(offset) == *old(offset),
{
    let v = read_u64_le(data, *offset)?;
    *offset += 8;
    Some(v)
}

pub fn read_u128_at(data: &[u8], offset: &mut usize) -> (r: Option<u128>)
    ensures
        r is Some <==> *old(offset) + 16 <= data.len(),
        r matches Some(v) ==> v == le_at(data@, *old(offset) as int, 16) && *final(offset) == *old(offset) + 16,
        r is None ==> *final(offset) == *old(offset),
{
    let v = read_u128_le(data, *offset)?;
    *offset += 16;
    Some(v)
}

pub fn read_i128_at(data: &[u8], offset: &mut usize) -> (r: Option<i128>)
    ensures
        r is Some <==> *old(offset) + 16 <= data.len(),
        r matches Some(v) ==> v == to_signed(le_at(data@, *old(offset) as int, 16), 16) && *final(offset) == *old(offset) + 16,
        r is None ==> *final(offset) == *old(offset),
{
    let v = read_i128_le(data, *offset)?;
    *offset += 16;
    Some(v)
}

pub fn read_pubkey_at(data: &[u8], offset: &mut usize) -> (r: Option<Pubkey>)
    ensures
        r is Some <==> *old(offset) + 32 <= data.len(),
        r matches Some(k) ==> k@ == data@.subrange(*old(offset) as int, *old(offset) + 32) && *final(offset) == *old(offset) + 32,
        r is None ==> *final(offset) == *old(offset),
{
    let v = read_pubkey(data, *offset)?;
    *offset += 32;
    Some(v)
}

/// `values` is the run of little-endian `width`-byte numbers at `offset`.
pub open spec fn le_run_at(values: Seq<int>, data: Seq<u8>, offset: int, width: int) -> bool {
    forall|i: int| 0 <= i < values.len() ==> #[trigger] values[i] == le_at(data, offset + width * i, width)
}

/// Where a run of `width`-byte reads that starts at `start` stops when the
/// data, `len` bytes long, runs out: after the last whole number.
pub open spec fn run_stop(start: int, len: int, width: int) -> int {
    if start <= len {
        start + width * ((len - start) / width)
    } else {
        start
    }
}

pub open spec fn u32s(a: Seq<u32>) -> Seq<int> {
    a.map_values(|v: u32| v as int)
}

pub open spec fn u64s(a: Seq<u64>) -> Seq<int> {
    a.map_values(|v: u64| v as int)
}

pub open spec fn u128s(a: Seq<u128>) -> Seq<int> {
    a.map_values(|v: u128| v as int)
}

/// `N` bytes copied from the cursor.
pub fn read_u8_array<const N: usize>(data: &[u8], offset: &mut usize) -> (r: Option<[u8; N]>)
    ensures
        r is Some <==> *old(offset) + N <= data.len(),
        r matches Some(a) ==> a@ == data@.subrange(*old(offset) as int, *old(offset) + N) && *final(offset) == *old(offset) + N,
        r is None ==> *final(offset) == *old(offset),
{
    if !fits(data, *offset, N) {
        return None;
    }
    let start = *offset;
    let mut values = [0u8; N];
    let mut i: usize = 0;
    while i < N
        invariant
            i <= N,
            start + N <= data.len(),
            values@.len() == N,
            forall|j: int| 0 <= j < i ==> values@[j] == data@[start + j],
        decreases N - i,
    {
        values[i] = data[start + i];
        i += 1;
    }
    assert(values@ =~= data@.subrange(start as int, start + N));
    *offset = start + N;
    Some(values)
}

/// `N` little-endian `u32`s from the cursor. The cursor moves past each
/// number read, also when the data runs out before the last one.
pub fn read_u32_array<const N: usize>(data: &[u8], offset: &mut usize) -> (r: Option<[u32; N]>)
    ensures
        r is Some <==> N == 0 || *old(offset) + 4 * N <= data.len(),
        r matches Some(a) ==> le_run_at(u32s(a@), data@, *old(offset) as int, 4) && *final(offset) == *old(offset) + 4 * N,
        r is None ==> *final(offset) == run_stop(*old(offset) as int, data.len() as int, 4),
{
    let start = *offset;
    let mut values = [0u32; N];
    let mut i: usize = 0;
    while i < N
        invariant
            i <= N,
            values@.len() == N,
            start == *old(offset),
            *offset == start + 4 * i,
            i > 0 ==> start + 4 * i <= data.len(),
            forall|j: int| 0 <= j < i ==> values@[j] == le_at(data@, start + 4 * j, 4),
        decreases N - i,
    {
        match read_u32_at(data, offset) {
            Some(v) => {
                values[i] = v;
            },
            None => {
                proof {
                    if start <= data.len() {
                        let k: int = data.len() - start;
                        assert(k / 4 == i) by (nonlinear_arith)
                            requires
                                4 * i <= k < 4 * i + 4,
                        ;
                    }
                }
                return None;
            },
        }
        i += 1;
    }
    Some(values)
}

/// `N` little-endian `u64`s from the cursor. The cursor moves past each
/// number read, also when the data runs out before the last one.
pub fn read_u64_array<const N: usize>(data: &[u8], offset: &mut usize) -> (r: Option<[u64; N]>)
    ensures
        r is Some <==> N == 0 || *old(offset) + 8 * N <= data.len(),
        r matches Some(a) ==> le_run_at(u64s(a@), data@, *old(offset) as int, 8) && *final(offset) == *old(offset) + 8 * N,
        r is None ==> *final(offset) == run_stop(*old(offset) as int, data.len() as int, 8),
{
    let start = *offset;
    let mut values = [0u64; N];
    let mut i: usize = 0;
    while i < N
        invariant
            i <= N,
            values@.len() == N,
            start == *old(offset),
            *offset == start + 8 * i,
            i > 0 ==> start + 8 * i <= data.len(),
            forall|j: int| 0 <= j < i ==> values@[j] == le_at(data@, start + 8 * j, 8),
        decreases N - i,
    {
        match read_u64_at(data, offset) {
            Some(v) => {
                values[i] = v;
            },
            None => {
                proof {
                    if start <= data.len() {
                        let k: int = data.len() - start;
                        assert(k / 8 == i) by (nonlinear_arith)
                            requires
                                8 * i <= k < 8 * i + 8,
                        ;
                    }
                }
                return None;
            },
        }
        i += 1;
    }
    Some(values)
}

/// `N` little-endian `u128`s from the cursor. The cursor moves past each
/// number read, also when the data runs out before the last one.
pub fn read_u128_array<const N: usize>(data: &[u8], offset: &mut usize) -> (r: Option<[u128; N]>)
    ensures
        r is Some <==> N == 0 || *old(offset) + 16 * N <= data.len(),
        r matches Some(a) ==> le_run_at(u128s(a@), data@, *old(offset) as int, 16) && *final(offset) == *old(offset) + 16 * N,
        r is None ==> *final(offset) == run_stop(*old(offset) as int, data.len() as int, 16),
{
    let start = *offset;
    let mut values = [0u128; N];
    let mut i: usize = 0;
    while i < N
        invariant
            i <= N,
            values@.len() == N,
            start == *old(offset),
            *offset == start + 16 * i,
            i > 0 ==> start + 16 * i <= data.len(),
            forall|j: int| 0 <= j < i ==> values@[j] == le_at(data@, start + 16 * j, 16),
        decreases N - i,
    {
        match read_u128_at(data, offset) {
            Some(v) => {
                values[i] = v;
            },
            None => {
                proof {
                    if start <= data.len() {
                        let k: int = data.len() - start;
                        assert(k / 16 == i) by (nonlinear_arith)
                            requires
                                16 * i <= k < 16 * i + 16,
                        ;
                    }
                }
                return None;
            },
        }
        i += 1;
    }
    Some(values)
}

} // verus!
