use vstd::prelude::*;

verus! {

/// Nanoseconds in one second.
pub const NANOS_PER_SEC: u64 = 1_000_000_000;

/// The resolution of timestamps taken from the clock: one microsecond.
pub const DEFAULT_RESOLUTION: u64 = 1_000;

/// `t / r` rounded to the nearest integer, halves away from zero.
pub open spec fn round_div(t: int, r: int) -> int
    recommends
        r > 0,
{
    if t >= 0 {
        (2 * t + r) / (2 * r)
    } else {
        -((-2 * t + r) / (2 * r))
    }
}

/// `t` rounded to the nearest multiple of `r`, halves away from zero.
pub open spec fn quantize(t: int, r: int) -> int
    recommends
        r > 0,
{
    round_div(t, r) * r
}

/// Whether an integer fits in an `i64`.
pub open spec fn fits_i64(x: int) -> bool {
    i64::MIN <= x <= i64::MAX
}

proof fn lemma_round_div_multiple(k: int, r: int)
    requires
        r > 0,
    ensures
        round_div(k * r, r) == k,
{
    if k >= 0 {
        assert(2 * (k * r) + r == k * (2 * r) + r) by (nonlinear_arith);
        assert((k * (2 * r) + r) / (2 * r) == k) by (nonlinear_arith)
            requires
                r > 0,
                k >= 0,
        ;
    } else {
        assert(k * r < 0) by (nonlinear_arith)
            requires
                r > 0,
                k < 0,
        ;
        assert(-2 * (k * r) + r == (-k) * (2 * r) + r) by (nonlinear_arith);
        assert(((-k) * (2 * r) + r) / (2 * r) == -k) by (nonlinear_arith)
            requires
                r > 0,
                k < 0,
        ;
    }
}

/// Quantizing is idempotent: a value that was already rounded to a
/// multiple of `r` is left as it is by a second rounding.
pub proof fn lemma_quantize_idempotent(t: int, r: int)
    requires
        r > 0,
    ensures
        quantize(quantize(t, r), r) == quantize(t, r),
{
    lemma_round_div_multiple(round_div(t, r), r);
}

proof fn lemma_quantize_multiple(t: int, r: int)
    requires
        r > 0,
    ensures
        quantize(t, r) % r == 0,
{
    vstd::arithmetic::div_mod::lemma_mod_multiples_basic(round_div(t, r), r);
}

proof fn lemma_quantize_bounded(t: int, r: int)
    requires
        r > 0,
    ensures
        t - r <= quantize(t, r) <= t + r,
{
    let q = round_div(t, r);
    if t >= 0 {
        assert(2 * t - r < q * (2 * r) <= 2 * t + r) by (nonlinear_arith)
            requires
                q == (2 * t + r) / (2 * r),
                r > 0,
        ;
    } else {
        assert(-2 * t - r < (-q) * (2 * r) <= -2 * t + r) by (nonlinear_arith)
            requires
                -q == (-2 * t + r) / (2 * r),
                r > 0,
        ;
    }
    assert(t - r <= q * r <= t + r) by (nonlinear_arith)
        requires
            2 * t - r < q * (2 * r) <= 2 * t + r || -2 * t - r < (-q) * (2 * r) <= -2 * t + r,
            r > 0,
    ;
}

#[verifier::external_type_specification]
#[verifier::external_body]
pub struct ExSystemTime(std::time::SystemTime);

#[verifier::external_type_specification]
#[verifier::external_body]
pub struct ExSystemTimeError(std::time::SystemTimeError);

/// Relies on `SystemTime::now`: a reading of the system clock.
pub assume_specification[ std::time::SystemTime::now ]() -> std::time::SystemTime;

/// Relies on `SystemTime::duration_since`: the time elapsed since
/// `earlier`, or an error holding how far before it the clock reads.
pub assume_specification[ std::time::SystemTime::duration_since ](
    st: &std::time::SystemTime,
    earlier: std::time::SystemTime,
) -> Result<std::time::Duration, std::time::SystemTimeError>;

/// Relies on `SystemTimeError::duration`: how far before the reference time
/// the clock reads.
pub assume_specification[ std::time::SystemTimeError::duration ](
    e: &std::time::SystemTimeError,
) -> std::time::Duration;

/// Relies on `Duration::as_nanos`: the whole duration in nanoseconds.
pub assume_specification[ std::time::Duration::as_nanos ](d: &std::time::Duration) -> u128;

/// Relies on `std::time::UNIX_EPOCH`: the time of the Unix epoch.
#[verifier::external_body]
fn unix_epoch() -> std::time::SystemTime {
    std::time::UNIX_EPOCH
}

/// The largest distance from the epoch, in nanoseconds, that a clock
/// reading is taken at: it leaves room in an `i64` for rounding.
pub const CLOCK_LIMIT: u128 = 9_223_372_036_853_775_807;

/// The nanoseconds since the epoch of a clock reading: `Ok` holds the
/// time elapsed since the epoch, `Err` how far before it the clock reads.
/// A distance beyond `CLOCK_LIMIT` is taken as `CLOCK_LIMIT`.
pub open spec fn clock_time(reading: Result<u128, u128>) -> int {
    match reading {
        Ok(after) => if after > CLOCK_LIMIT { CLOCK_LIMIT as int } else { after as int },
        Err(before) => if before > CLOCK_LIMIT { -(CLOCK_LIMIT as int) } else { -(before as int) },
    }
}

/// Whether `t` is a timestamp that `Timestamp::now` can give: some clock
/// reading rounded to the default resolution.
pub open spec fn is_clock_time(t: Timestamp) -> bool {
    exists|reading: Result<u128, u128>|
        t.nanos == quantize(#[trigger] clock_time(reading), DEFAULT_RESOLUTION as int)
}

/// An absolute point in time, held as a signed count of nanoseconds since
/// the Unix epoch.
#[derive(Clone, Copy, Debug, PartialEq, Eq, PartialOrd, Ord, Hash, Default)]
pub struct Timestamp {
    /// Nanoseconds since the epoch; negative before it.
    pub nanos: i64,
}

impl Timestamp {
    /// The number of nanoseconds since the epoch.
    pub open spec fn spec_nanos(&self) -> int {
        self.nanos as int
    }

    /// Wraps an exact count of nanoseconds since the epoch, without
    /// rounding.
    pub fn from_nanos(nanos: i64) -> (r: Timestamp)
        ensures
            r.spec_nanos() == nanos,
    {
        Timestamp { nanos }
    }

    /// A timestamp at a whole number of seconds since the epoch.
    pub fn from_secs(secs: i64) -> (r: Timestamp)
        requires
            fits_i64(secs * NANOS_PER_SEC),
        ensures
            r.spec_nanos() == secs * NANOS_PER_SEC,
    {
        Timestamp { nanos: secs * (NANOS_PER_SEC as i64) }
    }

    /// The number of nanoseconds since the epoch.
    pub fn as_nanos(&self) -> (r: i64)
        ensures
            r == self.spec_nanos(),
    {
        self.nanos
    }

    /// The time `nanos` nanoseconds after the epoch, rounded to the
    /// nearest multiple of `res` nanoseconds (halves away from zero), or
    /// `None` where that multiple does not fit in an `i64`.
    ///
    /// Times before the epoch (negative `nanos`) are accepted and rounded
    /// the same way. This is deliberate: no function of this library
    /// panics, and `now` has to give a timestamp for every clock reading,
    /// a clock set before the epoch included.
    pub fn with_resolution(nanos: i64, res: u64) -> (r: Option<Timestamp>)
        requires
            res > 0,
        ensures
            fits_i64(quantize(nanos as int, res as int)) <==> r is Some,
            r matches Some(ts) ==> ts.spec_nanos() == quantize(nanos as int, res as int),
    {
        let t = nanos as i128;
        let rr = res as i128;
        let q: i128 = if t >= 0 {
            (2 * t + rr) / (2 * rr)
        } else {
            -((-2 * t + rr) / (2 * rr))
        };
        assert(q == round_div(t as int, rr as int));
        proof {
            if t >= 0 {
                assert(0 <= q <= 2 * t + rr) by (nonlinear_arith)
                    requires
                        q == (2 * t + rr) / (2 * rr),
                        t >= 0,
                        rr > 0,
                ;
            } else {
                assert(0 <= -q <= -2 * t + rr) by (nonlinear_arith)
                    requires
                        -q == (-2 * t + rr) / (2 * rr),
                        t < 0,
                        rr > 0,
                ;
            }
        }
        if q > (i64::MAX as i128) || q < (i64::MIN as i128) {
            proof {
                assert(!fits_i64(q * rr)) by (nonlinear_arith)
                    requires
                        q > i64::MAX || q < i64::MIN,
                        rr >= 1,
                ;
            }
            return None;
        }
        assert(-0x8000_0000_0000_0000_0000_0000_0000_0000 < q * rr < 0x8000_0000_0000_0000_0000_0000_0000_0000)
            by (nonlinear_arith)
            requires
                i64::MIN <= q <= i64::MAX,
                1 <= rr <= u64::MAX,
        ;
        let v = q * rr;
        if v > (i64::MAX as i128) || v < (i64::MIN as i128) {
            None
        } else {
            Some(Timestamp { nanos: v as i64 })
        }
    }

    /// The timestamp of a clock reading (see `clock_time`), rounded to the
    /// default resolution of one microsecond.
    pub fn from_clock(reading: Result<u128, u128>) -> (r: Timestamp)
        ensures
            r.nanos == quantize(clock_time(reading), DEFAULT_RESOLUTION as int),
    {
        let t: i64 = match reading {
            Ok(after) => if after > CLOCK_LIMIT { CLOCK_LIMIT as i64 } else { after as i64 },
            Err(before) => if before > CLOCK_LIMIT {
                -(CLOCK_LIMIT as i64)
            } else {
                -(before as i64)
            },
        };
        match Timestamp::with_resolution(t, DEFAULT_RESOLUTION) {
            Some(ts) => ts,
            None => {
                // The clamped reading leaves room for rounding: never taken.
                proof {
                    lemma_quantize_bounded(t as int, DEFAULT_RESOLUTION as int);
                    assert(false);
                }
                Timestamp { nanos: t }
            },
        }
    }

    /// The current time, rounded to the default resolution of one
    /// microsecond (see `from_clock`).
    pub fn now() -> (r: Timestamp)
        ensures
            (r.nanos as int) % (DEFAULT_RESOLUTION as int) == 0,
            is_clock_time(r),
    {
        let st = std::time::SystemTime::now();
        let reading: Result<u128, u128> = match st.duration_since(unix_epoch()) {
            Ok(d) => Ok(d.as_nanos()),
            Err(e) => Err(e.duration().as_nanos()),
        };
        let r = Timestamp::from_clock(reading);
        proof {
            lemma_quantize_multiple(clock_time(reading), DEFAULT_RESOLUTION as int);
        }
        r
    }

    /// This timestamp moved by `delta` nanoseconds (later for a positive
    /// `delta`), or `None` where the result does not fit in an `i64`.
    pub fn checked_add_nanos(&self, delta: i64) -> (r: Option<Timestamp>)
        ensures
            fits_i64(self.spec_nanos() + delta) <==> r is Some,
            r matches Some(ts) ==> ts.spec_nanos() == self.spec_nanos() + delta,
    {
        match self.nanos.checked_add(delta) {
            Some(n) => Some(Timestamp { nanos: n }),
            None => None,
        }
    }

    /// This timestamp moved `delta` nanoseconds earlier, or `None` where the
    /// result does not fit in an `i64`.
    pub fn checked_sub_nanos(&self, delta: i64) -> (r: Option<Timestamp>)
        ensures
            fits_i64(self.spec_nanos() - delta) <==> r is Some,
            r matches Some(ts) ==> ts.spec_nanos() == self.spec_nanos() - delta,
    {
        match self.nanos.checked_sub(delta) {
            Some(n) => Some(Timestamp { nanos: n }),
            None => None,
        }
    }
}

/// A value together with the time at which it was taken.
#[derive(Clone, Copy, Debug, PartialEq, Eq)]
pub struct TimeValue<T> {
    /// The time at which the value was taken.
    pub timestamp: Timestamp,
    /// The value.
    pub value: T,
}

impl<T> TimeValue<T> {
    /// A value taken at the current time, to the default resolution.
    pub fn new(val: T) -> (r: TimeValue<T>)
        ensures
            r.value == val,
            (r.timestamp.nanos as int) % (DEFAULT_RESOLUTION as int) == 0,
            is_clock_time(r.timestamp),
    {
        TimeValue { timestamp: Timestamp::now(), value: val }
    }

    /// A value taken at the time `ts`.
    pub fn with_timestamp(ts: Timestamp, val: T) -> (r: TimeValue<T>)
        ensures
            r.timestamp == ts,
            r.value == val,
    {
        TimeValue { timestamp: ts, value: val }
    }

    /// The timestamp and the value as a pair.
    pub fn into_tuple(self) -> (r: (Timestamp, T))
        ensures
            r == (self.timestamp, self.value),
    {
        (self.timestamp, self.value)
    }
}

impl<T> From<(Timestamp, T)> for TimeValue<T> {
    /// A value taken at the time of the pair's first half.
    fn from(v: (Timestamp, T)) -> (r: TimeValue<T>) {
        TimeValue { timestamp: v.0, value: v.1 }
    }
}

impl<T> vstd::std_specs::convert::FromSpecImpl<(Timestamp, T)> for TimeValue<T> {
    open spec fn obeys_from_spec() -> bool {
        true
    }

    open spec fn from_spec(v: (Timestamp, T)) -> TimeValue<T> {
        TimeValue { timestamp: v.0, value: v.1 }
    }
}

} // verus!
