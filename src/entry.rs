use vstd::prelude::*;
use crate::timestamp::{TimeValue, Timestamp};

verus! {

/// The MessagePack marker of a two-element array.
pub const PAIR_MARKER: u8 = 0x92;

/// The MessagePack marker of a big-endian 64-bit signed integer.
pub const INT64_MARKER: u8 = 0xd3;

/// Bytes before the value in an encoded entry.
pub const HEADER_LEN: usize = 10;

/// The eight bytes of `u`, most significant first.
pub open spec fn be_bytes(u: u64) -> Seq<u8> {
    seq![
        ((u >> 56u64) & 0xff) as u8,
        ((u >> 48u64) & 0xff) as u8,
        ((u >> 40u64) & 0xff) as u8,
        ((u >> 32u64) & 0xff) as u8,
        ((u >> 24u64) & 0xff) as u8,
        ((u >> 16u64) & 0xff) as u8,
        ((u >> 8u64) & 0xff) as u8,
        (u & 0xff) as u8,
    ]
}

/// The number whose eight bytes, most significant first, are `b[0..8]`.
pub open spec fn be_value(b: Seq<u8>) -> u64
    recommends
        b.len() >= 8,
{
    ((b[0] as u64) << 56u64) | ((b[1] as u64) << 48u64) | ((b[2] as u64) << 40u64) | ((
    b[3] as u64) << 32u64) | ((b[4] as u64) << 24u64) | ((b[5] as u64) << 16u64) | ((b[6] as u64)
        << 8u64) | (b[7] as u64)
}

/// The bytes of a stored entry: a MessagePack pair of the timestamp's
/// nanoseconds, as a 64-bit signed integer, and the value, whose bytes are
/// already MessagePack.
///
/// The timestamp is kept as an integer count of nanoseconds, not as
/// floating-point seconds: a member whose timestamp is a MessagePack float
/// is not an entry of this format, and reading it fails with
/// `Error::Decode`.
pub open spec fn entry_bytes(ts: Timestamp, value: Seq<u8>) -> Seq<u8> {
    seq![PAIR_MARKER, INT64_MARKER] + be_bytes(ts.nanos as u64) + value
}

/// Whether `b` holds an entry: the two markers, eight bytes of timestamp,
/// and the value's bytes, which may be none.
pub open spec fn is_entry(b: Seq<u8>) -> bool {
    b.len() >= HEADER_LEN && b[0] == PAIR_MARKER && b[1] == INT64_MARKER
}

/// The timestamp that an entry holds.
pub open spec fn entry_time(b: Seq<u8>) -> Timestamp {
    Timestamp { nanos: be_value(b.subrange(2, 10)) as i64 }
}

/// The value bytes that an entry holds.
pub open spec fn entry_value(b: Seq<u8>) -> Seq<u8> {
    b.subrange(HEADER_LEN as int, b.len() as int)
}

proof fn lemma_be_round_trip(u: u64)
    ensures
        be_value(be_bytes(u)) == u,
{
    assert(((((u >> 56u64) & 0xff) as u8) as u64) << 56u64 | ((((u >> 48u64) & 0xff) as u8) as u64)
        << 48u64 | ((((u >> 40u64) & 0xff) as u8) as u64) << 40u64 | ((((u >> 32u64) & 0xff) as u8)
        as u64) << 32u64 | ((((u >> 24u64) & 0xff) as u8) as u64) << 24u64 | ((((u >> 16u64)
        & 0xff) as u8) as u64) << 16u64 | ((((u >> 8u64) & 0xff) as u8) as u64) << 8u64 | (((u
        & 0xff) as u8) as u64) == u) by (bit_vector);
}

proof fn lemma_i64_round_trip(n: i64)
    ensures
        (n as u64) as i64 == n,
{
    assert((n as u64) as i64 == n) by (bit_vector);
}

/// Decoding an encoded entry gives back its timestamp and value.
pub proof fn lemma_entry_round_trip(ts: Timestamp, value: Seq<u8>)
    ensures
        is_entry(entry_bytes(ts, value)),
        entry_time(entry_bytes(ts, value)) == ts,
        entry_value(entry_bytes(ts, value)) == value,
{
    let b = entry_bytes(ts, value);
    lemma_be_round_trip(ts.nanos as u64);
    lemma_i64_round_trip(ts.nanos);
    assert(b.subrange(2, 10) =~= be_bytes(ts.nanos as u64));
    assert(entry_value(b) =~= value);
}

/// Encodes a point: its timestamp and its value bytes in one entry.
pub fn encode_entry(ts: Timestamp, value: &[u8]) -> (r: Vec<u8>)
    ensures
        r@ == entry_bytes(ts, value@),
{
    let u: u64 = #[verifier::truncate] (ts.nanos as u64);
    let mut r: Vec<u8> = Vec::new();
    r.push(PAIR_MARKER);
    r.push(INT64_MARKER);
    r.push(((u >> 56u64) & 0xff) as u8);
    r.push(((u >> 48u64) & 0xff) as u8);
    r.push(((u >> 40u64) & 0xff) as u8);
    r.push(((u >> 32u64) & 0xff) as u8);
    r.push(((u >> 24u64) & 0xff) as u8);
    r.push(((u >> 16u64) & 0xff) as u8);
    r.push(((u >> 8u64) & 0xff) as u8);
    r.push((u & 0xff) as u8);
    let mut i: usize = 0;
    while i < value.len()
        invariant
            i <= value@.len(),
            r@ == seq![PAIR_MARKER, INT64_MARKER] + be_bytes(u) + value@.subrange(0, i as int),
        decreases value@.len() - i,
    {
        r.push(value[i]);
        i = i + 1;
        assert(r@ =~= seq![PAIR_MARKER, INT64_MARKER] + be_bytes(u) + value@.subrange(0, i as int));
    }
    assert(value@.subrange(0, value@.len() as int) =~= value@);
    r
}

/// Decodes an entry into its timestamp and value bytes, or `None` where
/// the bytes are not an entry.
pub fn decode_entry(bytes: &[u8]) -> (r: Option<TimeValue<Vec<u8>>>)
    ensures
        r is Some <==> is_entry(bytes@),
        r matches Some(tv) ==> tv.timestamp == entry_time(bytes@) && tv.value@ == entry_value(
            bytes@,
        ),
{
    if bytes.len() < HEADER_LEN || bytes[0] != PAIR_MARKER || bytes[1] != INT64_MARKER {
        return None;
    }
    let u: u64 = ((bytes[2] as u64) << 56u64) | ((bytes[3] as u64) << 48u64) | ((
    bytes[4] as u64) << 40u64) | ((bytes[5] as u64) << 32u64) | ((bytes[6] as u64) << 24u64) | ((
    bytes[7] as u64) << 16u64) | ((bytes[8] as u64) << 8u64) | (bytes[9] as u64);
    assert(u == be_value(bytes@.subrange(2, 10)));
    let mut value: Vec<u8> = Vec::new();
    let mut i: usize = HEADER_LEN;
    while i < bytes.len()
        invariant
            HEADER_LEN <= i <= bytes@.len(),
            value@ == bytes@.subrange(HEADER_LEN as int, i as int),
        decreases bytes@.len() - i,
    {
        value.push(bytes[i]);
        i = i + 1;
        assert(value@ =~= bytes@.subrange(HEADER_LEN as int, i as int));
    }
    Some(TimeValue { timestamp: Timestamp { nanos: #[verifier::truncate] (u as i64) }, value })
}

} // verus!
