//! The timestamp codec: an instant as the eight leading bytes of a payload.

use crate::error::{ErrorKind, LatencyTestError};
use vstd::prelude::*;

verus! {

/// Number of leading payload bytes that carry the send timestamp.
pub const TIMESTAMP_LEN: usize = 8;

/// The eight bytes that stand for `nanos` (nanoseconds since the epoch),
/// least significant byte first.
pub open spec fn timestamp_bytes(nanos: u64) -> Seq<u8> {
    seq![
        (nanos % 0x100) as u8,
        (nanos / 0x100 % 0x100) as u8,
        (nanos / 0x1_0000 % 0x100) as u8,
        (nanos / 0x100_0000 % 0x100) as u8,
        (nanos / 0x1_0000_0000 % 0x100) as u8,
        (nanos / 0x100_0000_0000 % 0x100) as u8,
        (nanos / 0x1_0000_0000_0000 % 0x100) as u8,
        (nanos / 0x100_0000_0000_0000 % 0x100) as u8,
    ]
}

/// The instant that the first eight bytes of `bytes` stand for: byte `i`
/// weighs `256^i`.
pub open spec fn timestamp_value(bytes: Seq<u8>) -> int
    recommends
        bytes.len() >= TIMESTAMP_LEN,
{
    bytes[0] as int + bytes[1] as int * 0x100 + bytes[2] as int * 0x1_0000 + bytes[3] as int
        * 0x100_0000 + bytes[4] as int * 0x1_0000_0000 + bytes[5] as int * 0x100_0000_0000
        + bytes[6] as int * 0x1_0000_0000_0000 + bytes[7] as int * 0x100_0000_0000_0000
}

/// Decoding what was encoded gives the instant back, for every instant that
/// fits in 64 bits.
pub proof fn lemma_timestamp_round_trip(nanos: u64)
    ensures
        timestamp_bytes(nanos).len() == TIMESTAMP_LEN,
        timestamp_value(timestamp_bytes(nanos)) == nanos,
{
    let b = timestamp_bytes(nanos);
    assert(nanos == (nanos % 0x100) + (nanos / 0x100 % 0x100) * 0x100 + (nanos / 0x1_0000 % 0x100)
        * 0x1_0000 + (nanos / 0x100_0000 % 0x100) * 0x100_0000 + (nanos / 0x1_0000_0000 % 0x100)
        * 0x1_0000_0000 + (nanos / 0x100_0000_0000 % 0x100) * 0x100_0000_0000 + (nanos
        / 0x1_0000_0000_0000 % 0x100) * 0x1_0000_0000_0000 + (nanos / 0x100_0000_0000_0000
        % 0x100) * 0x100_0000_0000_0000) by (bit_vector);
    assert(b[0] == nanos % 0x100);
    assert(b[1] == nanos / 0x100 % 0x100);
    assert(b[2] == nanos / 0x1_0000 % 0x100);
    assert(b[3] == nanos / 0x100_0000 % 0x100);
    assert(b[4] == nanos / 0x1_0000_0000 % 0x100);
    assert(b[5] == nanos / 0x100_0000_0000 % 0x100);
    assert(b[6] == nanos / 0x1_0000_0000_0000 % 0x100);
    assert(b[7] == nanos / 0x100_0000_0000_0000 % 0x100);
}

/// Encoding what was decoded gives the leading eight bytes back, and every
/// decoded instant fits in 64 bits.
pub proof fn lemma_bytes_round_trip(bytes: Seq<u8>)
    requires
        bytes.len() >= TIMESTAMP_LEN,
    ensures
        0 <= timestamp_value(bytes) <= u64::MAX,
        timestamp_bytes(timestamp_value(bytes) as u64) == bytes.take(TIMESTAMP_LEN as int),
{
    let (b0, b1, b2, b3) = (bytes[0], bytes[1], bytes[2], bytes[3]);
    let (b4, b5, b6, b7) = (bytes[4], bytes[5], bytes[6], bytes[7]);
    let v = timestamp_value(bytes) as u64;
    assert(v == b0 as u64 + b1 as u64 * 0x100 + b2 as u64 * 0x1_0000 + b3 as u64 * 0x100_0000
        + b4 as u64 * 0x1_0000_0000 + b5 as u64 * 0x100_0000_0000 + b6 as u64
        * 0x1_0000_0000_0000 + b7 as u64 * 0x100_0000_0000_0000);
    assert(v % 0x100 == b0 && v / 0x100 % 0x100 == b1 && v / 0x1_0000 % 0x100 == b2 && v
        / 0x100_0000 % 0x100 == b3 && v / 0x1_0000_0000 % 0x100 == b4 && v / 0x100_0000_0000
        % 0x100 == b5 && v / 0x1_0000_0000_0000 % 0x100 == b6 && v / 0x100_0000_0000_0000
        % 0x100 == b7) by (bit_vector)
        requires
            v == b0 as u64 + b1 as u64 * 0x100 + b2 as u64 * 0x1_0000 + b3 as u64 * 0x100_0000
                + b4 as u64 * 0x1_0000_0000 + b5 as u64 * 0x100_0000_0000 + b6 as u64
                * 0x1_0000_0000_0000 + b7 as u64 * 0x100_0000_0000_0000,
    ;
    assert(timestamp_bytes(v) =~= bytes.take(TIMESTAMP_LEN as int));
}

/// Encodes an instant as its eight timestamp bytes.
pub fn encode_timestamp(nanos: u64) -> (bytes: [u8; 8])
    ensures
        bytes@ == timestamp_bytes(nanos),
{
    let bytes: [u8; 8] = [
        (nanos % 0x100) as u8,
        (nanos / 0x100 % 0x100) as u8,
        (nanos / 0x1_0000 % 0x100) as u8,
        (nanos / 0x100_0000 % 0x100) as u8,
        (nanos / 0x1_0000_0000 % 0x100) as u8,
        (nanos / 0x100_0000_0000 % 0x100) as u8,
        (nanos / 0x1_0000_0000_0000 % 0x100) as u8,
        (nanos / 0x100_0000_0000_0000 % 0x100) as u8,
    ];
    assert(bytes@ =~= timestamp_bytes(nanos));
    bytes
}

/// Reads the send instant from the leading eight bytes of a message payload.
/// A payload shorter than that is malformed; bytes past the eighth are filler
/// and are not looked at.
pub fn decode_timestamp(payload: &[u8]) -> (r: Result<u64, LatencyTestError>)
    ensures
        r is Err <==> payload@.len() < TIMESTAMP_LEN,
        r matches Ok(nanos) ==> nanos == timestamp_value(payload@),
        r matches Err(e) ==> e.kind == ErrorKind::MalformedMessage,
{
    if payload.len() < TIMESTAMP_LEN {
        return Err(
            LatencyTestError::of_kind(
                ErrorKind::MalformedMessage,
                "message is too short to carry a send timestamp",
            ),
        );
    }
    let nanos: u64 = payload[0] as u64 + payload[1] as u64 * 0x100 + payload[2] as u64 * 0x1_0000
        + payload[3] as u64 * 0x100_0000 + payload[4] as u64 * 0x1_0000_0000 + payload[5] as u64
        * 0x100_0000_0000 + payload[6] as u64 * 0x1_0000_0000_0000 + payload[7] as u64
        * 0x100_0000_0000_0000;
    Ok(nanos)
}

/// Writes the timestamp of `nanos` over the leading eight bytes of a payload
/// buffer and leaves the filler behind them as it was.
pub fn stamp_payload(payload: &mut Vec<u8>, nanos: u64)
    requires
        old(payload).len() >= TIMESTAMP_LEN,
    ensures
        final(payload)@ == timestamp_bytes(nanos) + old(payload)@.skip(TIMESTAMP_LEN as int),
{
    let bytes = encode_timestamp(nanos);
    let mut i: usize = 0;
    while i < TIMESTAMP_LEN
        invariant
            i <= TIMESTAMP_LEN,
            bytes@ == timestamp_bytes(nanos),
            payload.len() == old(payload).len(),
            payload.len() >= TIMESTAMP_LEN,
            forall|j: int| 0 <= j < i ==> payload@[j] == bytes@[j],
            forall|j: int| i <= j < payload.len() ==> payload@[j] == old(payload)@[j],
        decreases TIMESTAMP_LEN - i,
    {
        payload.set(i, bytes[i]);
        i += 1;
    }
    assert(payload@ =~= timestamp_bytes(nanos) + old(payload)@.skip(TIMESTAMP_LEN as int));
}

} // verus!
