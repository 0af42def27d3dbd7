use vstd::prelude::*;
use vstd::string::StringExecFns;
use crate::entry::{decode_entry, encode_entry, entry_bytes, entry_time, entry_value, is_entry};
use crate::error::Error;
use crate::score::{bound_text, in_range, score_of, score_text, Bound};
use crate::entry::lemma_entry_round_trip;
use crate::timestamp::{fits_i64, is_clock_time};
use crate::timestamp::{TimeValue, Timestamp};

verus! {

#[verifier::external_type_specification]
#[verifier::external_body]
pub struct ExClient(redis::Client);

#[verifier::external_type_specification]
#[verifier::external_body]
pub struct ExConnection(redis::Connection);

/// Relies on `redis::Client::open`: parses the address of a server.
#[verifier::external_body]
fn open_client(uri: &str) -> (r: Result<redis::Client, redis::RedisError>) {
    redis::Client::open(uri)
}

/// Relies on `redis::Client::get_connection`: connects to the server.
#[verifier::external_body]
fn open_connection(cli: &redis::Client) -> (r: Result<redis::Connection, redis::RedisError>) {
    cli.get_connection()
}

/// Relies on `redis::Commands::zadd`: sends `ZADD key score member`.
#[verifier::external_body]
fn send_zadd(conn: &mut redis::Connection, key: &String, score: &Vec<u8>, member: &Vec<u8>) -> (r:
    Result<(), redis::RedisError>) {
    redis::Commands::zadd(conn, key, member, score)
}

/// Relies on `redis::Commands::zadd_multiple`: sends one `ZADD` with each
/// score and member pair in turn.
#[verifier::external_body]
fn send_zadd_multiple(
    conn: &mut redis::Connection,
    key: &String,
    items: &Vec<(Vec<u8>, Vec<u8>)>,
) -> (r: Result<(), redis::RedisError>) {
    redis::Commands::zadd_multiple(conn, key, items.as_slice())
}

/// Relies on `redis::Commands::zrangebyscore`: sends
/// `ZRANGEBYSCORE key min max` and hands back the members that came back.
#[verifier::external_body]
fn send_zrangebyscore(conn: &mut redis::Connection, key: &String, min: &Vec<u8>, max: &Vec<u8>) -> (r:
    Result<Vec<Vec<u8>>, redis::RedisError>) {
    redis::Commands::zrangebyscore(conn, key, min, max)
}

/// Relies on `redis::Commands::zrembyscore`: sends
/// `ZREMRANGEBYSCORE key min max`.
#[verifier::external_body]
fn send_zrembyscore(conn: &mut redis::Connection, key: &String, min: &Vec<u8>, max: &Vec<u8>) -> (r:
    Result<(), redis::RedisError>) {
    redis::Commands::zrembyscore(conn, key, min, max)
}

/// Relies on `redis::Commands::del`: sends `DEL key`.
#[verifier::external_body]
fn send_del(conn: &mut redis::Connection, key: &String) -> (r: Result<(), redis::RedisError>) {
    redis::Commands::del(conn, key)
}

/// The key of the sorted set that holds the series `name` of `namespace`:
/// the name alone in the empty namespace, else the two joined by a colon.
pub open spec fn series_key(namespace: Seq<char>, name: Seq<char>) -> Seq<char> {
    if namespace.len() == 0 {
        name
    } else {
        namespace + seq![':'] + name
    }
}

/// The address of the server on `host` at the default port.
pub open spec fn host_uri(host: Seq<char>) -> Seq<char> {
    seq!['r', 'e', 'd', 'i', 's', ':', '/', '/'] + host + seq!['/']
}

/// The sorted-set key of the series `name` of `namespace`.
pub fn make_key(namespace: &str, name: &str) -> (r: String)
    ensures
        r@ == series_key(namespace@, name@),
{
    if namespace.is_empty() {
        name.to_owned()
    } else {
        let mut key = namespace.to_owned();
        key.append(":");
        key.append(name);
        proof {
            reveal_strlit(":");
        }
        key
    }
}

/// The score and the member that store the point `value` at `ts`.
pub fn point_args(ts: Timestamp, value: &[u8]) -> (r: (Vec<u8>, Vec<u8>))
    ensures
        r.0@ == score_text(ts.nanos as int),
        r.1@ == entry_bytes(ts, value@),
{
    (score_of(ts), encode_entry(ts, value))
}

/// The bounds of the half-open range from `ts1`, included, to `ts2`,
/// excluded.
pub fn range_bounds(ts1: Timestamp, ts2: Timestamp) -> (r: (Bound, Bound))
    ensures
        r == (Bound::Inclusive(ts1), Bound::Exclusive(ts2)),
{
    (Bound::Inclusive(ts1), Bound::Exclusive(ts2))
}

/// The bounds of the range from `ts`, included, to the latest point.
pub fn from_bounds(ts: Timestamp) -> (r: (Bound, Bound))
    ensures
        r == (Bound::Inclusive(ts), Bound::PosInfinity),
{
    (Bound::Inclusive(ts), Bound::PosInfinity)
}

/// The bounds of the range of every point before `ts`, `ts` excluded.
pub fn before_bounds(ts: Timestamp) -> (r: (Bound, Bound))
    ensures
        r == (Bound::NegInfinity, Bound::Exclusive(ts)),
{
    (Bound::NegInfinity, Bound::Exclusive(ts))
}

/// The bounds of the range of every point.
pub fn all_bounds() -> (r: (Bound, Bound))
    ensures
        r == (Bound::NegInfinity, Bound::PosInfinity),
{
    (Bound::NegInfinity, Bound::PosInfinity)
}

/// The bytes of each member of a reply.
pub open spec fn members(raw: Seq<Vec<u8>>) -> Seq<Seq<u8>> {
    raw.map_values(|m: Vec<u8>| m@)
}

/// Whether every member of a reply is an entry.
pub open spec fn all_entries(reply: Seq<Seq<u8>>) -> bool {
    forall|i: int| 0 <= i < reply.len() ==> is_entry(#[trigger] reply[i])
}

/// Whether `v` holds the decoded members of `reply`, in their order.
pub open spec fn decodes_to(reply: Seq<Seq<u8>>, v: Seq<TimeValue<Vec<u8>>>) -> bool {
    &&& v.len() == reply.len()
    &&& forall|i: int|
        0 <= i < reply.len() ==> v[i].timestamp == entry_time(#[trigger] reply[i]) && v[i].value@
            == entry_value(reply[i])
}

/// Decodes the members that a range query handed back, in their order, or
/// fails with `Error::Decode` where one of them is not an entry.
pub fn decode_entries(raw: &Vec<Vec<u8>>) -> (r: Result<Vec<TimeValue<Vec<u8>>>, Error>)
    ensures
        r is Ok <==> all_entries(members(raw@)),
        r matches Ok(v) ==> decodes_to(members(raw@), v@),
        r matches Err(e) ==> e is Decode,
{
    assert(forall|i: int| 0 <= i < raw@.len() ==> #[trigger] members(raw@)[i] == raw@[i]@);
    let mut out: Vec<TimeValue<Vec<u8>>> = Vec::new();
    let mut i: usize = 0;
    while i < raw.len()
        invariant
            i <= raw@.len(),
            out@.len() == i,
            forall|j: int| 0 <= j < i ==> is_entry(#[trigger] raw@[j]@),
            forall|j: int|
                0 <= j < i ==> out@[j].timestamp == entry_time(#[trigger] raw@[j]@)
                    && out@[j].value@ == entry_value(raw@[j]@),
        decreases raw@.len() - i,
    {
        match decode_entry(raw[i].as_slice()) {
            Some(tv) => out.push(tv),
            None => {
                assert(!is_entry(members(raw@)[i as int]));
                return Err(Error::Decode);
            },
        }
        i = i + 1;
    }
    assert(decodes_to(members(raw@), out@));
    Ok(out)
}

/// The score and member pairs of a batch of timed values, in their order.
pub open spec fn batch_text(vals: Seq<TimeValue<Vec<u8>>>) -> Seq<(Seq<u8>, Seq<u8>)> {
    Seq::new(
        vals.len(),
        |j: int|
            (score_text(vals[j].timestamp.nanos as int), entry_bytes(vals[j].timestamp, vals[j].value@)),
    )
}

/// The score and member pairs of a batch of timestamp and value pairs, in
/// their order.
pub open spec fn pair_batch_text(vals: Seq<(Timestamp, Vec<u8>)>) -> Seq<(Seq<u8>, Seq<u8>)> {
    Seq::new(vals.len(), |j: int| (score_text(vals[j].0.nanos as int), entry_bytes(vals[j].0, vals[j].1@)))
}

/// The bytes of each score and member pair of a batch.
pub open spec fn pairs_text(items: Seq<(Vec<u8>, Vec<u8>)>) -> Seq<(Seq<u8>, Seq<u8>)> {
    items.map_values(|p: (Vec<u8>, Vec<u8>)| (p.0@, p.1@))
}

/// The score and member pairs that store a batch of timed values.
pub fn batch_args(vals: &[TimeValue<Vec<u8>>]) -> (r: Vec<(Vec<u8>, Vec<u8>)>)
    ensures
        pairs_text(r@) == batch_text(vals@),
{
    let mut items: Vec<(Vec<u8>, Vec<u8>)> = Vec::new();
    let mut i: usize = 0;
    while i < vals.len()
        invariant
            i <= vals@.len(),
            items@.len() == i,
            forall|j: int|
                0 <= j < i ==> (#[trigger] items@[j]).0@ == score_text(vals@[j].timestamp.nanos as int)
                    && items@[j].1@ == entry_bytes(vals@[j].timestamp, vals@[j].value@),
        decreases vals@.len() - i,
    {
        items.push(point_args(vals[i].timestamp, vals[i].value.as_slice()));
        i = i + 1;
    }
    assert(pairs_text(items@) =~= batch_text(vals@));
    items
}

/// The score and member pairs that store a batch of timestamp and value
/// pairs.
pub fn pair_batch_args(vals: &[(Timestamp, Vec<u8>)]) -> (r: Vec<(Vec<u8>, Vec<u8>)>)
    ensures
        pairs_text(r@) == pair_batch_text(vals@),
{
    let mut items: Vec<(Vec<u8>, Vec<u8>)> = Vec::new();
    let mut i: usize = 0;
    while i < vals.len()
        invariant
            i <= vals@.len(),
            items@.len() == i,
            forall|j: int|
                0 <= j < i ==> (#[trigger] items@[j]).0@ == score_text(vals@[j].0.nanos as int)
                    && items@[j].1@ == entry_bytes(vals@[j].0, vals@[j].1@),
        decreases vals@.len() - i,
    {
        items.push(point_args(vals[i].0, vals[i].1.as_slice()));
        i = i + 1;
    }
    assert(pairs_text(items@) =~= pair_batch_text(vals@));
    items
}

/// The time `nanos` nanoseconds before `now`, or the earliest timestamp
/// where that lies beyond it.
pub open spec fn before_time(now: Timestamp, nanos: int) -> Timestamp {
    if now.nanos - nanos >= i64::MIN {
        Timestamp { nanos: (now.nanos - nanos) as i64 }
    } else {
        Timestamp { nanos: i64::MIN }
    }
}

/// The time `nanos` nanoseconds before `now`, or the earliest timestamp
/// where that lies beyond it.
pub fn before(now: Timestamp, nanos: u64) -> (r: Timestamp)
    ensures
        r == before_time(now, nanos as int),
{
    let t: i128 = (now.nanos as i128) - (nanos as i128);
    if t >= (i64::MIN as i128) {
        Timestamp { nanos: t as i64 }
    } else {
        Timestamp { nanos: i64::MIN }
    }
}

/// The address of the server on `host` at the default port.
pub fn host_address(host: &str) -> (r: String)
    ensures
        r@ == host_uri(host@),
{
    let mut uri = String::from_str("redis://");
    uri.append(host);
    uri.append("/");
    proof {
        reveal_strlit("redis://");
        reveal_strlit("/");
    }
    assert(uri@ =~= host_uri(host@));
    uri
}

/// A command that a series sends to the server, by its arguments after
/// the key.
pub enum Request {
    /// `ZADD key score member`.
    Add { score: Seq<u8>, member: Seq<u8> },
    /// One `ZADD key` with each score and member pair in turn.
    AddMany { items: Seq<(Seq<u8>, Seq<u8>)> },
    /// `ZRANGEBYSCORE key min max`.
    Range { min: Seq<u8>, max: Seq<u8> },
    /// `ZREMRANGEBYSCORE key min max`.
    Remove { min: Seq<u8>, max: Seq<u8> },
    /// `DEL key`.
    Delete,
}

/// The command that stores the point `value` at `ts`.
pub open spec fn add_request(ts: Timestamp, value: Seq<u8>) -> Request {
    Request::Add { score: score_text(ts.nanos as int), member: entry_bytes(ts, value) }
}

/// The command that reads the points from `lo` to `hi`.
pub open spec fn range_request(lo: Bound, hi: Bound) -> Request {
    Request::Range { min: bound_text(lo), max: bound_text(hi) }
}

/// The command that removes the points from `lo` to `hi`.
pub open spec fn remove_request(lo: Bound, hi: Bound) -> Request {
    Request::Remove { min: bound_text(lo), max: bound_text(hi) }
}

/// What a range query that came back with `r` did to the log of replies:
/// where the server failed, nothing was received; else the reply is
/// appended, `r` is `Ok` exactly when each of its members is an entry, and
/// then holds them decoded, in the reply's order.
pub open spec fn read_outcome(
    before: Seq<Seq<Seq<u8>>>,
    after: Seq<Seq<Seq<u8>>>,
    r: Result<Vec<TimeValue<Vec<u8>>>, Error>,
) -> bool {
    match r {
        Err(Error::Redis(_)) => after == before,
        _ => {
            &&& after.len() == before.len() + 1
            &&& after.drop_last() == before
            &&& (r is Ok <==> all_entries(after.last()))
            &&& (r matches Ok(v) ==> decodes_to(after.last(), v@))
        },
    }
}

fn redis_error<T>(r: Result<T, redis::RedisError>) -> (e: Result<T, Error>)
    ensures
        r matches Ok(v) ==> e == Ok::<T, Error>(v),
        r is Err ==> (e matches Err(err) && err is Redis),
{
    match r {
        Ok(v) => Ok(v),
        Err(err) => Err(Error::Redis(err)),
    }
}

/// A connection to one time series on a Redis server.
///
/// Each point is one member of a sorted set: the member holds the timestamp
/// and the value bytes (see `encode_entry`), and its score is the timestamp
/// in seconds (see `score_of`). Values are bytes, most often MessagePack.
///
/// The series keeps, as ghost state, the address it connected to and each
/// command it has sent, so that each method states what it sends.
pub struct TimeSeries {
    key: String,
    #[allow(dead_code)]
    cli: redis::Client,
    conn: redis::Connection,
    address: Ghost<Seq<char>>,
    sent: Ghost<Seq<Request>>,
    got: Ghost<Seq<Seq<Seq<u8>>>>,
}

impl TimeSeries {
    /// The key of the sorted set that holds the series.
    pub closed spec fn spec_key(&self) -> Seq<char> {
        self.key@
    }

    /// The address of the server that the series is on.
    pub closed spec fn spec_address(&self) -> Seq<char> {
        self.address@
    }

    /// The commands sent to the server so far, oldest first.
    pub closed spec fn requests(&self) -> Seq<Request> {
        self.sent@
    }

    /// The members that the range queries so far got back, one reply per
    /// query that the server answered, oldest first.
    pub closed spec fn replies(&self) -> Seq<Seq<Seq<u8>>> {
        self.got@
    }

    /// Whether `self` and `o` address the same series on the same server.
    pub open spec fn same_series(&self, o: &TimeSeries) -> bool {
        self.spec_key() == o.spec_key() && self.spec_address() == o.spec_address()
    }

    /// Connects to the series `name` of `namespace` on the local server.
    pub fn new(namespace: &str, name: &str) -> (r: Result<TimeSeries, Error>)
        ensures
            r matches Ok(ts) ==> ts.spec_key() == series_key(namespace@, name@)
                && ts.spec_address() == host_uri("localhost"@) && ts.requests() == Seq::<
                Request,
            >::empty() && ts.replies().len() == 0,
            r matches Err(e) ==> e is Redis,
    {
        TimeSeries::with_host("localhost", namespace, name)
    }

    /// Connects to the series `name` of `namespace` on the server `host`.
    pub fn with_host(host: &str, namespace: &str, name: &str) -> (r: Result<TimeSeries, Error>)
        ensures
            r matches Ok(ts) ==> ts.spec_key() == series_key(namespace@, name@) && ts.spec_address()
                == host_uri(host@) && ts.requests() == Seq::<Request>::empty() && ts.replies().len() == 0,
            r matches Err(e) ==> e is Redis,
    {
        let uri = host_address(host);
        TimeSeries::with_uri(uri.as_str(), namespace, name)
    }

    /// Connects to the series `name` of `namespace` on the server at `uri`.
    pub fn with_uri(uri: &str, namespace: &str, name: &str) -> (r: Result<TimeSeries, Error>)
        ensures
            r matches Ok(ts) ==> ts.spec_key() == series_key(namespace@, name@) && ts.spec_address()
                == uri@ && ts.requests() == Seq::<Request>::empty() && ts.replies().len() == 0,
            r matches Err(e) ==> e is Redis,
    {
        let key = make_key(namespace, name);
        let cli = redis_error(open_client(uri))?;
        let conn = redis_error(open_connection(&cli))?;
        Ok(TimeSeries { key, cli, conn, address: Ghost(uri@), sent: Ghost(Seq::empty()), got: Ghost(Seq::empty()) })
    }

    /// Adds the point `value` at `ts`, with the score and member of
    /// `point_args`.
    pub fn add(&mut self, ts: Timestamp, value: &[u8]) -> (r: Result<(), Error>)
        ensures
            final(self).same_series(old(self)),
            final(self).replies() == old(self).replies(),
            final(self).requests() == old(self).requests().push(add_request(ts, value@)),
            r matches Err(e) ==> e is Redis,
    {
        let (score, member) = point_args(ts, value);
        self.sent = Ghost(self.sent@.push(Request::Add { score: score@, member: member@ }));
        redis_error(send_zadd(&mut self.conn, &self.key, &score, &member))
    }

    /// Adds the point `value` at the current time.
    pub fn add_now(&mut self, value: &[u8]) -> (r: Result<(), Error>)
        ensures
            final(self).same_series(old(self)),
            final(self).replies() == old(self).replies(),
            exists|t: Timestamp|
                is_clock_time(t) && final(self).requests() == old(self).requests().push(
                    #[trigger] add_request(t, value@),
                ),
            r matches Err(e) ==> e is Redis,
    {
        let t = Timestamp::now();
        let r = self.add(t, value);
        assert(is_clock_time(t));
        r
    }

    /// Adds a timestamped point: its value at its timestamp.
    pub fn add_value(&mut self, tv: &TimeValue<Vec<u8>>) -> (r: Result<(), Error>)
        ensures
            final(self).same_series(old(self)),
            final(self).replies() == old(self).replies(),
            final(self).requests() == old(self).requests().push(
                add_request(tv.timestamp, tv.value@),
            ),
            r matches Err(e) ==> e is Redis,
    {
        self.add(tv.timestamp, tv.value.as_slice())
    }

    /// Adds several points in one command, with the pairs of `batch_args`.
    pub fn add_multiple(&mut self, vals: &[TimeValue<Vec<u8>>]) -> (r: Result<(), Error>)
        ensures
            final(self).same_series(old(self)),
            final(self).replies() == old(self).replies(),
            final(self).requests() == old(self).requests().push(
                Request::AddMany { items: batch_text(vals@) },
            ),
            r matches Err(e) ==> e is Redis,
    {
        let items = batch_args(vals);
        self.sent = Ghost(self.sent@.push(Request::AddMany { items: pairs_text(items@) }));
        redis_error(send_zadd_multiple(&mut self.conn, &self.key, &items))
    }

    /// Adds several points, each given as a timestamp and a value, in one
    /// command, with the pairs of `pair_batch_args`.
    pub fn add_multiple_values(&mut self, vals: &[(Timestamp, Vec<u8>)]) -> (r: Result<(), Error>)
        ensures
            final(self).same_series(old(self)),
            final(self).replies() == old(self).replies(),
            final(self).requests() == old(self).requests().push(
                Request::AddMany { items: pair_batch_text(vals@) },
            ),
            r matches Err(e) ==> e is Redis,
    {
        let items = pair_batch_args(vals);
        self.sent = Ghost(self.sent@.push(Request::AddMany { items: pairs_text(items@) }));
        redis_error(send_zadd_multiple(&mut self.conn, &self.key, &items))
    }

    /// The points between the bounds `lo` and `hi`, in the order that the
    /// server gives them, each decoded by `decode_entries`.
    pub fn get_range_any(&mut self, lo: Bound, hi: Bound) -> (r: Result<
        Vec<TimeValue<Vec<u8>>>,
        Error,
    >)
        ensures
            final(self).same_series(old(self)),
            read_outcome(old(self).replies(), final(self).replies(), r),
            r matches Err(e) ==> (e is Redis || e is Decode),
            final(self).requests() == old(self).requests().push(range_request(lo, hi)),
    {
        let min = lo.to_arg();
        let max = hi.to_arg();
        self.sent = Ghost(self.sent@.push(Request::Range { min: min@, max: max@ }));
        let raw = redis_error(send_zrangebyscore(&mut self.conn, &self.key, &min, &max))?;
        self.got = Ghost(self.got@.push(members(raw@)));
        assert(self.got@.drop_last() =~= old(self).got@);
        decode_entries(&raw)
    }

    /// The points from `ts1` up to, but not including, `ts2`.
    pub fn get_range(&mut self, ts1: Timestamp, ts2: Timestamp) -> (r: Result<
        Vec<TimeValue<Vec<u8>>>,
        Error,
    >)
        ensures
            final(self).same_series(old(self)),
            read_outcome(old(self).replies(), final(self).replies(), r),
            r matches Err(e) ==> (e is Redis || e is Decode),
            final(self).requests() == old(self).requests().push(
                range_request(Bound::Inclusive(ts1), Bound::Exclusive(ts2)),
            ),
    {
        let (lo, hi) = range_bounds(ts1, ts2);
        self.get_range_any(lo, hi)
    }

    /// The points from `ts` on.
    pub fn get_from(&mut self, ts: Timestamp) -> (r: Result<Vec<TimeValue<Vec<u8>>>, Error>)
        ensures
            final(self).same_series(old(self)),
            read_outcome(old(self).replies(), final(self).replies(), r),
            r matches Err(e) ==> (e is Redis || e is Decode),
            final(self).requests() == old(self).requests().push(
                range_request(Bound::Inclusive(ts), Bound::PosInfinity),
            ),
    {
        let (lo, hi) = from_bounds(ts);
        self.get_range_any(lo, hi)
    }

    /// The points of the last `nanos` nanoseconds, up to now.
    pub fn get_last(&mut self, nanos: u64) -> (r: Result<Vec<TimeValue<Vec<u8>>>, Error>)
        ensures
            final(self).same_series(old(self)),
            read_outcome(old(self).replies(), final(self).replies(), r),
            r matches Err(e) ==> (e is Redis || e is Decode),
            exists|t: Timestamp|
                is_clock_time(t) && final(self).requests() == old(self).requests().push(
                    range_request(Bound::Inclusive(#[trigger] before_time(t, nanos as int)), Bound::PosInfinity),
                ),
    {
        let now = Timestamp::now();
        let from = before(now, nanos);
        let r = self.get_from(from);
        assert(is_clock_time(now));
        r
    }

    /// Every point of the series.
    pub fn get_all(&mut self) -> (r: Result<Vec<TimeValue<Vec<u8>>>, Error>)
        ensures
            final(self).same_series(old(self)),
            read_outcome(old(self).replies(), final(self).replies(), r),
            r matches Err(e) ==> (e is Redis || e is Decode),
            final(self).requests() == old(self).requests().push(
                range_request(Bound::NegInfinity, Bound::PosInfinity),
            ),
    {
        let (lo, hi) = all_bounds();
        self.get_range_any(lo, hi)
    }

    /// Removes every point before `ts`; a point at `ts` itself stays.
    pub fn purge_before(&mut self, ts: Timestamp) -> (r: Result<(), Error>)
        ensures
            final(self).same_series(old(self)),
            final(self).replies() == old(self).replies(),
            final(self).requests() == old(self).requests().push(
                remove_request(Bound::NegInfinity, Bound::Exclusive(ts)),
            ),
            r matches Err(e) ==> e is Redis,
    {
        let (lo, hi) = before_bounds(ts);
        let min = lo.to_arg();
        let max = hi.to_arg();
        self.sent = Ghost(self.sent@.push(Request::Remove { min: min@, max: max@ }));
        redis_error(send_zrembyscore(&mut self.conn, &self.key, &min, &max))
    }

    /// Removes every point older than `nanos` nanoseconds before now.
    pub fn purge_older_than(&mut self, nanos: u64) -> (r: Result<(), Error>)
        ensures
            final(self).same_series(old(self)),
            final(self).replies() == old(self).replies(),
            exists|t: Timestamp|
                is_clock_time(t) && final(self).requests() == old(self).requests().push(
                    remove_request(Bound::NegInfinity, Bound::Exclusive(#[trigger] before_time(t, nanos as int))),
                ),
            r matches Err(e) ==> e is Redis,
    {
        let now = Timestamp::now();
        let limit = before(now, nanos);
        let r = self.purge_before(limit);
        assert(is_clock_time(now));
        r
    }

    /// Removes the whole series from the server.
    pub fn delete(&mut self) -> (r: Result<(), Error>)
        ensures
            final(self).same_series(old(self)),
            final(self).replies() == old(self).replies(),
            final(self).requests() == old(self).requests().push(Request::Delete),
            r matches Err(e) ==> e is Redis,
    {
        self.sent = Ghost(self.sent@.push(Request::Delete));
        redis_error(send_del(&mut self.conn, &self.key))
    }
}

/// A point added at `ts` lies in the window that `get_range` queries from
/// `ts` to any later time `ts + eps`: its score is the window's lower
/// bound, written the same way, no other point outside `[ts, ts + eps)`
/// lies in the window, and its member decodes to `ts` and its value.
pub proof fn lemma_point_in_own_window(ts: Timestamp, value: Seq<u8>, eps: int)
    requires
        eps > 0,
        fits_i64(ts.nanos + eps),
    ensures
        ({
            let later = Timestamp { nanos: (ts.nanos + eps) as i64 };
            &&& in_range(Bound::Inclusive(ts), Bound::Exclusive(later), ts.nanos as int)
            &&& forall|s: int|
                #[trigger] in_range(Bound::Inclusive(ts), Bound::Exclusive(later), s) ==> ts.nanos
                    <= s < ts.nanos + eps
            &&& bound_text(Bound::Inclusive(ts)) == score_text(ts.nanos as int)
            &&& is_entry(entry_bytes(ts, value))
            &&& entry_time(entry_bytes(ts, value)) == ts
            &&& entry_value(entry_bytes(ts, value)) == value
        }),
{
    lemma_entry_round_trip(ts, value);
}

/// A read whose reply holds just the member that `add(ts, value)` wrote
/// gives back exactly one point: `value` at `ts`.
pub proof fn lemma_single_point_read(ts: Timestamp, value: Seq<u8>, v: Seq<TimeValue<Vec<u8>>>)
    requires
        decodes_to(seq![entry_bytes(ts, value)], v),
    ensures
        v.len() == 1,
        v[0].timestamp == ts,
        v[0].value@ == value,
{
    lemma_entry_round_trip(ts, value);
    assert(seq![entry_bytes(ts, value)][0] == entry_bytes(ts, value));
}

/// Where each member of a reply holds a time in the range from `lo` to
/// `hi`, so does each point read from it, in the reply's order.
pub proof fn lemma_read_within_bounds(
    lo: Bound,
    hi: Bound,
    reply: Seq<Seq<u8>>,
    v: Seq<TimeValue<Vec<u8>>>,
)
    requires
        decodes_to(reply, v),
        forall|i: int| 0 <= i < reply.len() ==> in_range(lo, hi, #[trigger] entry_time(reply[i]).nanos as int),
    ensures
        forall|i: int| 0 <= i < v.len() ==> in_range(lo, hi, #[trigger] v[i].timestamp.nanos as int),
{
    assert forall|i: int| 0 <= i < v.len() implies in_range(lo, hi, #[trigger] v[i].timestamp.nanos as int) by {
        assert(v[i].timestamp == entry_time(reply[i]));
    }
}

/// A read of `get_range(a, b)` with `b` not after `a` whose reply keeps
/// to the range gives no point.
pub proof fn lemma_empty_range_read(a: Timestamp, b: Timestamp, reply: Seq<Seq<u8>>, v: Seq<TimeValue<Vec<u8>>>)
    requires
        b.nanos <= a.nanos,
        decodes_to(reply, v),
        forall|i: int|
            0 <= i < reply.len() ==> in_range(Bound::Inclusive(a), Bound::Exclusive(b), #[trigger] entry_time(reply[i]).nanos as int),
    ensures
        v.len() == 0,
{
    if reply.len() > 0 {
        assert(in_range(Bound::Inclusive(a), Bound::Exclusive(b), entry_time(reply[0]).nanos as int));
    }
}

/// The range of `get_range(a, b)` is half open: it holds a point exactly
/// when the point is at `a` or later and before `b`.
pub proof fn lemma_range_half_open(a: Timestamp, b: Timestamp)
    ensures
        forall|s: int|
            #[trigger] in_range(Bound::Inclusive(a), Bound::Exclusive(b), s) <==> a.nanos <= s
                < b.nanos,
        a.nanos < b.nanos ==> in_range(Bound::Inclusive(a), Bound::Exclusive(b), a.nanos as int),
        !in_range(Bound::Inclusive(a), Bound::Exclusive(b), b.nanos as int),
{
}

/// The range that `purge_before(t)` removes holds exactly the points
/// strictly before `t`: a point at `t` stays.
pub proof fn lemma_purge_strictly_before(t: Timestamp)
    ensures
        forall|s: int| #[trigger] in_range(Bound::NegInfinity, Bound::Exclusive(t), s) <==> s < t.nanos,
        !in_range(Bound::NegInfinity, Bound::Exclusive(t), t.nanos as int),
{
}

/// The range that `get_all` queries holds every point.
pub proof fn lemma_all_holds_every_point(s: int)
    ensures
        in_range(Bound::NegInfinity, Bound::PosInfinity, s),
{
}

} // verus!
