//! Locating and decoding the base64 payload of `Program data: ` log lines.

use crate::bytes::bytes_eq;
use base64::engine::general_purpose::STANDARD;
use base64::Engine;
use vstd::prelude::*;
use vstd::string::StringSliceAdditionalSpecFns;

verus! {

/// `needle` occurs in `hay` starting at index `i`.
pub open spec fn occurs_at(hay: Seq<u8>, needle: Seq<u8>, i: int) -> bool {
    &&& 0 <= i
    &&& i + needle.len() <= hay.len()
    &&& hay.subrange(i, i + needle.len()) == needle
}

pub open spec fn contains_seq(hay: Seq<u8>, needle: Seq<u8>) -> bool {
    exists|i: int| occurs_at(hay, needle, i)
}

/// The UTF-8 bytes of `log` contain `needle` (what `str::contains` tests).
pub open spec fn log_contains(log: &str, needle: Seq<u8>) -> bool {
    contains_seq(log.spec_bytes(), needle)
}

/// The index of the first occurrence of `needle` in `hay`.
#[verifier::opaque]
pub open spec fn first_occurrence(hay: Seq<u8>, needle: Seq<u8>) -> Option<int> {
    if contains_seq(hay, needle) {
        Some(
            choose|i: int|
                occurs_at(hay, needle, i) && forall|j: int| 0 <= j < i ==> !occurs_at(hay, needle, j),
        )
    } else {
        None
    }
}

proof fn lemma_first_occurrence_is(hay: Seq<u8>, needle: Seq<u8>, i: int)
    requires
        occurs_at(hay, needle, i),
        forall|j: int| 0 <= j < i ==> !occurs_at(hay, needle, j),
    ensures
        first_occurrence(hay, needle) == Some(i),
{
    reveal(first_occurrence);
    let k = choose|k: int|
        occurs_at(hay, needle, k) && forall|j: int| 0 <= j < k ==> !occurs_at(hay, needle, j);
    assert(k == i) by {
        if k > i {
            assert(!occurs_at(hay, needle, i));
        }
    }
}

proof fn lemma_no_occurrence(hay: Seq<u8>, needle: Seq<u8>)
    requires
        forall|j: int| !occurs_at(hay, needle, j),
    ensures
        first_occurrence(hay, needle) is None,
        !contains_seq(hay, needle),
{
    reveal(first_occurrence);
}

/// The index of the first occurrence of `needle` in `hay`.
pub fn find_bytes(hay: &[u8], needle: &[u8]) -> (r: Option<usize>)
    ensures
        r matches Some(i) ==> first_occurrence(hay@, needle@) == Some(i as int)
            && occurs_at(hay@, needle@, i as int),
        r is None ==> first_occurrence(hay@, needle@) is None && !contains_seq(hay@, needle@),
{
    if needle.len() > hay.len() {
        assert forall|j: int| !occurs_at(hay@, needle@, j) by {}
        proof {
            lemma_no_occurrence(hay@, needle@);
        }
        return None;
    }
    if needle.len() == 0 {
        assert(hay@.subrange(0, 0) =~= needle@);
        proof {
            lemma_first_occurrence_is(hay@, needle@, 0);
        }
        return Some(0);
    }
    let last = hay.len() - needle.len();
    let mut i: usize = 0;
    while i <= last
        invariant
            last == hay.len() - needle.len(),
            needle.len() > 0,
            i <= last + 1,
            forall|j: int| 0 <= j < i ==> !occurs_at(hay@, needle@, j),
        decreases last + 1 - i,
    {
        let window = vstd::slice::slice_subrange(hay, i, i + needle.len());
        if bytes_eq(window, needle) {
            proof {
                lemma_first_occurrence_is(hay@, needle@, i as int);
            }
            return Some(i);
        }
        i += 1;
    }
    assert forall|j: int| !occurs_at(hay@, needle@, j) by {
        if 0 <= j <= last {
        }
    }
    proof {
        lemma_no_occurrence(hay@, needle@);
    }
    None
}

/// Whether `needle` occurs in `hay`.
pub fn contains_bytes(hay: &[u8], needle: &[u8]) -> (r: bool)
    ensures
        r == contains_seq(hay@, needle@),
{
    match find_bytes(hay, needle) {
        Some(i) => {
            assert(occurs_at(hay@, needle@, i as int));
            true
        },
        None => false,
    }
}

/// `Program data: `, as bytes.
pub const PROGRAM_DATA_PREFIX: [u8; 14] = [80, 114, 111, 103, 114, 97, 109, 32, 100, 97, 116, 97, 58, 32];

/// What `base64::engine::general_purpose::STANDARD.decode` returns for
/// `input`: the decoded bytes, or `None` where it reports an error.
pub uninterp spec fn base64_standard_decode(input: Seq<u8>) -> Option<Seq<u8>>;

/// Calls `base64::engine::general_purpose::STANDARD.decode` (standard
/// alphabet, padding required) and keeps the bytes of an `Ok`. The contract
/// claims only that the result is the named decoding of the input.
#[verifier::external_body]
fn decode_base64_standard(input: &[u8]) -> (r: Option<Vec<u8>>)
    ensures
        match base64_standard_decode(input@) {
            Some(bytes) => r matches Some(v) && v@ == bytes,
            None => r is None,
        },
{
    STANDARD.decode(input).ok()
}

/// The program data of a log line: the base64 text after the first
/// `Program data: ` in it, decoded.
pub open spec fn program_data_of(log: Seq<u8>) -> Option<Seq<u8>> {
    match first_occurrence(log, PROGRAM_DATA_PREFIX@) {
        Some(i) => base64_standard_decode(log.subrange(i + PROGRAM_DATA_PREFIX@.len(), log.len() as int)),
        None => None,
    }
}

/// Extracts and decodes the base64 payload that follows `Program data: `.
pub fn extract_program_data(log: &str) -> (r: Option<Vec<u8>>)
    ensures
        match program_data_of(log.spec_bytes()) {
            Some(bytes) => r matches Some(v) && v@ == bytes,
            None => r is None,
        },
{
    let bytes = log.as_bytes();
    let found = find_bytes(bytes, &PROGRAM_DATA_PREFIX);
    match found {
        Some(start) => {
            assert(PROGRAM_DATA_PREFIX@.len() == 14);
            assert(bytes@.len() == bytes.len());
            let payload = vstd::slice::slice_subrange(bytes, start + 14, bytes.len());
            decode_base64_standard(payload)
        },
        None => None,
    }
}

/// A log line that is `Program data: ` followed by base64 text carries the
/// decoding of exactly that text.
pub proof fn law_program_data_after_prefix(text: Seq<u8>)
    ensures
        program_data_of(PROGRAM_DATA_PREFIX@ + text) == base64_standard_decode(text),
{
    let log = PROGRAM_DATA_PREFIX@ + text;
    assert(log.subrange(0, 14) =~= PROGRAM_DATA_PREFIX@);
    lemma_first_occurrence_is(log, PROGRAM_DATA_PREFIX@, 0);
    assert(log.subrange(14, log.len() as int) =~= text);
}

} // verus!
