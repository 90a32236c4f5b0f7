//! The bucket as the shared store holds it: the bytes of its record, the
//! store's clock, and the allocation carried out on those bytes.
//!
//! A record is twelve bytes: the last slot as a little-endian `u64`, then the
//! token count as a little-endian `u32`. The layout is private to the
//! allocator; nothing else reads the record.

use vstd::prelude::*;
use vstd::bytes::{
    spec_u32_from_le_bytes,
    spec_u32_to_le_bytes,
    spec_u64_from_le_bytes,
    spec_u64_to_le_bytes,
    u32_from_le_bytes,
    u32_to_le_bytes,
    u64_from_le_bytes,
    u64_to_le_bytes,
};
use vstd::slice::slice_subrange;
use crate::allocator::{allocate_slot, allocation, BucketState};
use crate::errors::SLError;

verus! {

/// The length of a record in bytes.
pub const RECORD_LEN: usize = 12;

/// The bytes of a record.
pub open spec fn encoded(state: BucketState) -> Seq<u8> {
    spec_u64_to_le_bytes(state.next_slot) + spec_u32_to_le_bytes(state.tokens)
}

/// The record that `bytes` hold, or `None` where they are not a record.
pub open spec fn decoded(bytes: Seq<u8>) -> Option<BucketState> {
    if bytes.len() == RECORD_LEN {
        Some(
            BucketState {
                tokens: spec_u32_from_le_bytes(bytes.subrange(8, 12)),
                next_slot: spec_u64_from_le_bytes(bytes.subrange(0, 8)),
            },
        )
    } else {
        None
    }
}

/// Every record is read back as it was written.
pub proof fn lemma_decode_encode(state: BucketState)
    ensures
        encoded(state).len() == RECORD_LEN,
        decoded(encoded(state)) == Some(state),
{
    vstd::bytes::lemma_auto_spec_u64_to_from_le_bytes();
    vstd::bytes::lemma_auto_spec_u32_to_from_le_bytes();
    let bytes = encoded(state);
    assert(bytes.subrange(0, 8) =~= spec_u64_to_le_bytes(state.next_slot));
    assert(bytes.subrange(8, 12) =~= spec_u32_to_le_bytes(state.tokens));
}

/// Only one sequence of bytes holds a given record: bytes that decode are the
/// encoding of what they decode to.
pub proof fn lemma_encode_decode(bytes: Seq<u8>)
    requires
        decoded(bytes) is Some,
    ensures
        encoded(decoded(bytes).unwrap()) == bytes,
{
    vstd::bytes::lemma_auto_spec_u64_to_from_le_bytes();
    vstd::bytes::lemma_auto_spec_u32_to_from_le_bytes();
    assert(bytes.subrange(0, 8).len() == 8);
    assert(bytes.subrange(8, 12).len() == 4);
    assert(bytes.subrange(0, 8) + bytes.subrange(8, 12) =~= bytes);
}

/// Writes a record as bytes.
pub fn encode_state(state: &BucketState) -> (bytes: Vec<u8>)
    ensures
        bytes@ == encoded(*state),
        bytes@.len() == RECORD_LEN,
{
    let mut bytes: Vec<u8> = u64_to_le_bytes(state.next_slot);
    let mut tokens: Vec<u8> = u32_to_le_bytes(state.tokens);
    bytes.append(&mut tokens);
    bytes
}

/// Reads a record from bytes; `None` where the bytes are not a record.
pub fn decode_state(bytes: &[u8]) -> (state: Option<BucketState>)
    ensures
        state == decoded(bytes@),
{
    if bytes.len() != RECORD_LEN {
        return None;
    }
    let next_slot: u64 = u64_from_le_bytes(slice_subrange(bytes, 0, 8));
    let tokens: u32 = u32_from_le_bytes(slice_subrange(bytes, 8, 12));
    Some(BucketState { tokens, next_slot })
}

/// The store's clock in milliseconds, from the seconds since the epoch and the
/// microseconds within the second that the store reports.
pub open spec fn clock_millis(seconds: u64, microseconds: u64) -> int {
    seconds * 1000 + microseconds / 1000
}

/// Turns the store's clock reading into milliseconds since the epoch; `None`
/// where that time does not fit in 64 bits.
pub fn store_now_millis(seconds: u64, microseconds: u64) -> (now: Option<u64>)
    ensures
        clock_millis(seconds, microseconds) <= u64::MAX ==> now == Some(
            clock_millis(seconds, microseconds) as u64,
        ),
        clock_millis(seconds, microseconds) > u64::MAX ==> now.is_none(),
{
    match seconds.checked_mul(1000) {
        None => None,
        Some(whole) => whole.checked_add(microseconds / 1000),
    }
}

/// What the store holds for a bucket, read from the raw value under its key:
/// no record yet where the key is absent, a record where the bytes decode, and
/// `None` where the bytes under the key are not a record.
pub open spec fn stored_record(raw: Option<Seq<u8>>) -> Option<Option<BucketState>> {
    match raw {
        None => Some(None),
        Some(bytes) => match decoded(bytes) {
            Some(state) => Some(Some(state)),
            None => None,
        },
    }
}

/// The raw value under the key, as the contracts speak of it.
pub open spec fn raw_view(raw: Option<&[u8]>) -> Option<Seq<u8>> {
    match raw {
        None => None,
        Some(bytes) => Some(bytes@),
    }
}

/// Carries out one allocation on the raw value that the store holds under the
/// bucket's key, `None` where the key is absent.
///
/// Returns the bytes to write back under the key, and the slot. Fails with
/// `ScriptExecutionError`, and asks for nothing to be written, where the value
/// under the key is not a record or the allocation cannot be carried out.
pub fn allocate_in_store(
    raw: Option<&[u8]>,
    now: u64,
    capacity: u32,
    refill_interval: u64,
    refill_amount: u32,
) -> (result: Result<(Vec<u8>, u64), SLError>)
    ensures
        match stored_record(raw_view(raw)) {
            Some(stored) => match allocation(
                stored,
                now,
                capacity,
                refill_interval,
                refill_amount,
            ) {
                Some(done) => {
                    &&& result is Ok
                    &&& result.unwrap().0@ == encoded(done.state)
                    &&& result.unwrap().1 == done.slot
                },
                None => result == Err::<(Vec<u8>, u64), SLError>(SLError::ScriptExecutionError),
            },
            None => result == Err::<(Vec<u8>, u64), SLError>(SLError::ScriptExecutionError),
        },
{
    let stored: Option<BucketState> = match raw {
        None => None,
        Some(bytes) => match decode_state(bytes) {
            Some(state) => Some(state),
            None => {
                return Err(SLError::ScriptExecutionError);
            },
        },
    };
    match allocate_slot(stored, now, capacity, refill_interval, refill_amount) {
        Err(error) => Err(error),
        Ok(done) => Ok((encode_state(&done.state), done.slot)),
    }
}

} // verus!
