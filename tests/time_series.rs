use redis_zset_ts::entry::{decode_entry, encode_entry};
use redis_zset_ts::score::score_of;
use redis_zset_ts::series::{
    all_bounds, batch_args, before, before_bounds, decode_entries, from_bounds, host_address,
    make_key, pair_batch_args, point_args, range_bounds,
};
use redis_zset_ts::{Bound, Error, TimeSeries, TimeValue, Timestamp};

fn text(b: Vec<u8>) -> String {
    String::from_utf8(b).unwrap()
}

fn secs(s: i64) -> Timestamp {
    Timestamp::from_secs(s)
}

fn msgpack(v: i32) -> Vec<u8> {
    rmp_serde::encode::to_vec(&v).unwrap()
}

#[test]
fn test_time_value() {
    let tv = TimeValue::from((Timestamp::from_nanos(0), 42));
    assert_eq!(42, tv.value);

    let tv = tv.into_tuple();
    assert_eq!(42, tv.1);
}

#[test]
fn quantize_rounds_to_nearest_multiple() {
    assert_eq!(Some(Timestamp::from_nanos(1_235_000)), Timestamp::with_resolution(1_234_567, 1_000));
    assert_eq!(Some(Timestamp::from_nanos(1_234_000)), Timestamp::with_resolution(1_234_499, 1_000));
    assert_eq!(Some(Timestamp::from_nanos(2_000)), Timestamp::with_resolution(1_500, 1_000));
    assert_eq!(Some(Timestamp::from_nanos(-2_000)), Timestamp::with_resolution(-1_500, 1_000));
    assert_eq!(Some(Timestamp::from_nanos(-1_000)), Timestamp::with_resolution(-1_499, 1_000));
}

#[test]
fn quantize_is_idempotent() {
    for t in [1_234_567i64, -987_654_321, 0, 999, 1_700_000_000_123_456_789] {
        for r in [1u64, 7, 1_000, 1_000_000] {
            let once = Timestamp::with_resolution(t, r).unwrap();
            let twice = Timestamp::with_resolution(once.as_nanos(), r).unwrap();
            assert_eq!(once, twice);
        }
    }
}

#[test]
fn quantize_out_of_range_is_none() {
    assert_eq!(None, Timestamp::with_resolution(i64::MAX, 10));
    assert_eq!(Some(Timestamp::from_nanos(i64::MAX)), Timestamp::with_resolution(i64::MAX, 1));
}

#[test]
fn offsets() {
    let t = secs(3);
    assert_eq!(Some(Timestamp::from_nanos(3_000_000_005)), t.checked_add_nanos(5));
    assert_eq!(Some(Timestamp::from_nanos(2_999_999_995)), t.checked_sub_nanos(5));
    assert_eq!(None, Timestamp::from_nanos(i64::MAX).checked_add_nanos(1));
    assert_eq!(None, Timestamp::from_nanos(i64::MIN).checked_sub_nanos(1));
}

#[test]
fn now_is_whole_microseconds() {
    let t = Timestamp::now();
    assert_eq!(0, t.as_nanos() % 1_000);
    assert!(t.as_nanos() > 1_600_000_000_000_000_000);
    let tv = TimeValue::new(7u8);
    assert_eq!(7, tv.value);
    assert_eq!(0, tv.timestamp.as_nanos() % 1_000);
}

#[test]
fn score_text() {
    assert_eq!("3.000000000", text(score_of(secs(3))));
    assert_eq!("0.000000000", text(score_of(secs(0))));
    assert_eq!("-1.500000000", text(score_of(Timestamp::from_nanos(-1_500_000_000))));
    assert_eq!("1700000000.000123456", text(score_of(Timestamp::from_nanos(1_700_000_000_000_123_456))));
    assert_eq!("-9223372036.854775808", text(score_of(Timestamp::from_nanos(i64::MIN))));
    assert_eq!("9223372036.854775807", text(score_of(Timestamp::from_nanos(i64::MAX))));
}

#[test]
fn bound_args() {
    assert_eq!("-inf", text(Bound::NegInfinity.to_arg()));
    assert_eq!("+inf", text(Bound::PosInfinity.to_arg()));
    assert_eq!("2.000000000", text(Bound::Inclusive(secs(2)).to_arg()));
    assert_eq!("(3.000000000", text(Bound::Exclusive(secs(3)).to_arg()));
}

#[test]
fn series_keys() {
    assert_eq!("redis-zset-ts:get", make_key("redis-zset-ts", "get"));
    assert_eq!("get", make_key("", "get"));
    assert_eq!(make_key("a", "b"), make_key("a", "b"));
}

#[test]
fn entry_round_trip() {
    let value = msgpack(42);
    for ts in [secs(2), Timestamp::from_nanos(-7), Timestamp::from_nanos(i64::MIN), Timestamp::from_nanos(i64::MAX)] {
        let bytes = encode_entry(ts, &value);
        assert_eq!(bytes.len(), 10 + value.len());
        let tv = decode_entry(&bytes).unwrap();
        assert_eq!(ts, tv.timestamp);
        assert_eq!(value, tv.value);
        let (t, v): (i64, i32) = rmp_serde::decode::from_slice(&bytes).unwrap();
        assert_eq!(ts.as_nanos(), t);
        assert_eq!(42, v);
    }
}

#[test]
fn entry_layout() {
    let bytes = encode_entry(Timestamp::from_nanos(0x0102_0304_0506_0708), &[0x2a]);
    assert_eq!(vec![0x92, 0xd3, 1, 2, 3, 4, 5, 6, 7, 8, 0x2a], bytes);
}

#[test]
fn malformed_entries() {
    assert!(decode_entry(&[]).is_none());
    assert!(decode_entry(&[0x92, 0xd3, 0, 0, 0, 0, 0, 0, 0]).is_none());
    assert!(decode_entry(&[0x93, 0xd3, 0, 0, 0, 0, 0, 0, 0, 0, 1]).is_none());
    assert!(decode_entry(&[0x92, 0xcb, 0, 0, 0, 0, 0, 0, 0, 0, 1]).is_none());
    let good = encode_entry(secs(2), &msgpack(42));
    let r = decode_entries(&vec![good.clone(), vec![1, 2, 3]]);
    assert!(matches!(r, Err(Error::Decode)));
}

#[test]
fn decode_entries_keeps_order() {
    let raw = vec![
        encode_entry(secs(2), &msgpack(42)),
        encode_entry(secs(3), &msgpack(99)),
        encode_entry(secs(4), &msgpack(13)),
    ];
    let v = decode_entries(&raw).unwrap();
    assert_eq!(3, v.len());
    let vals: Vec<i32> = v.iter().map(|tv| rmp_serde::decode::from_slice(&tv.value).unwrap()).collect();
    assert_eq!(vec![42, 99, 13], vals);
    assert_eq!(vec![secs(2), secs(3), secs(4)], v.iter().map(|tv| tv.timestamp).collect::<Vec<_>>());
    assert!(decode_entries(&vec![]).unwrap().is_empty());
}

#[test]
fn point_score_matches_window_bound() {
    let ts = secs(2);
    let (score, member) = point_args(ts, &msgpack(42));
    assert_eq!("2.000000000", text(score.clone()));
    let (lo, hi) = range_bounds(ts, ts.checked_add_nanos(1).unwrap());
    assert_eq!(score, lo.to_arg());
    assert_eq!("(2.000000001", text(hi.to_arg()));
    let tv = decode_entry(&member).unwrap();
    assert_eq!(ts, tv.timestamp);
    assert_eq!(msgpack(42), tv.value);
}

#[test]
fn scenario_query_bounds() {
    let args = |(lo, hi): (Bound, Bound)| (text(lo.to_arg()), text(hi.to_arg()));
    assert_eq!(("2.000000000".to_string(), "(3.000000000".to_string()), args(range_bounds(secs(2), secs(3))));
    assert_eq!(("2.000000000".to_string(), "(4.000000000".to_string()), args(range_bounds(secs(2), secs(4))));
    assert_eq!(("3.000000000".to_string(), "+inf".to_string()), args(from_bounds(secs(3))));
    assert_eq!(("-inf".to_string(), "+inf".to_string()), args(all_bounds()));
    assert_eq!(("-inf".to_string(), "(3.000000000".to_string()), args(before_bounds(secs(3))));
    assert_eq!(("1.000000000".to_string(), "(5.000000000".to_string()), args(range_bounds(secs(1), secs(5))));
}

#[test]
fn bad_address_is_a_redis_error() {
    let r = TimeSeries::with_uri("not an address", "ns", "x");
    assert!(matches!(r, Err(Error::Redis(_))));
    let r = TimeSeries::with_uri("redis://127.0.0.1:1/", "ns", "x");
    assert!(matches!(r, Err(Error::Redis(_))));
}

#[test]
fn empty_value_round_trip() {
    let bytes = encode_entry(secs(5), &[]);
    assert_eq!(10, bytes.len());
    let tv = decode_entry(&bytes).unwrap();
    assert_eq!(secs(5), tv.timestamp);
    assert!(tv.value.is_empty());
}

#[test]
fn batches() {
    let vals = vec![
        TimeValue::with_timestamp(secs(2), msgpack(42)),
        TimeValue::with_timestamp(secs(3), msgpack(99)),
    ];
    let items = batch_args(&vals);
    assert_eq!(2, items.len());
    assert_eq!(point_args(secs(2), &msgpack(42)), items[0]);
    assert_eq!(point_args(secs(3), &msgpack(99)), items[1]);
    assert_eq!("3.000000000", text(items[1].0.clone()));
    let pairs = vec![(secs(2), msgpack(42)), (secs(3), msgpack(99))];
    assert_eq!(items, pair_batch_args(&pairs));
    assert!(batch_args(&[]).is_empty());
}

#[test]
fn time_before() {
    assert_eq!(secs(7), before(secs(10), 3_000_000_000));
    assert_eq!(Timestamp::from_nanos(i64::MIN), before(Timestamp::from_nanos(-5), u64::MAX));
    assert_eq!(Timestamp::from_nanos(i64::MIN), before(Timestamp::from_nanos(0), 1u64 << 63));
    assert_eq!(secs(10), before(secs(10), 0));
}

#[test]
fn host_addresses() {
    assert_eq!("redis://localhost/", host_address("localhost"));
    assert_eq!("redis://db.example:6380/", host_address("db.example:6380"));
}

#[test]
fn clock_readings() {
    assert_eq!(Timestamp::from_nanos(1_700_000_000_000_124_000), Timestamp::from_clock(Ok(1_700_000_000_000_123_500)));
    assert_eq!(Timestamp::from_nanos(-2_000), Timestamp::from_clock(Err(1_500)));
    assert_eq!(Timestamp::from_nanos(9_223_372_036_853_776_000), Timestamp::from_clock(Ok(u128::MAX)));
    assert_eq!(Timestamp::from_nanos(-9_223_372_036_853_776_000), Timestamp::from_clock(Err(u128::MAX)));
}

#[test]
fn time_value_from_pair() {
    let tv: TimeValue<i32> = TimeValue::from((secs(4), 13));
    assert_eq!(secs(4), tv.timestamp);
    assert_eq!(13, tv.value);
}
