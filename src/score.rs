use vstd::prelude::*;
use crate::timestamp::{Timestamp, NANOS_PER_SEC};

verus! {

/// The ASCII code of the decimal digit `d`.
pub open spec fn digit(d: int) -> u8 {
    (48 + d) as u8
}

/// The decimal digits of `n`, most significant first, without leading
/// zeros (`0` is the one digit `0`).
pub open spec fn decimal(n: nat) -> Seq<u8>
    decreases n,
{
    if n < 10 {
        seq![digit(n as int)]
    } else {
        decimal(n / 10).push(digit(n as int % 10))
    }
}

/// The last `w` decimal digits of `n`, with leading zeros.
pub open spec fn padded(n: nat, w: nat) -> Seq<u8>
    decreases w,
{
    if w == 0 {
        Seq::empty()
    } else {
        padded(n / 10, (w - 1) as nat).push(digit(n as int % 10))
    }
}

/// `m` nanoseconds written as seconds: the whole seconds, a point and nine
/// digits of fraction.
pub open spec fn seconds_text(m: nat) -> Seq<u8> {
    decimal(m / NANOS_PER_SEC as nat) + seq![46u8] + padded(m % NANOS_PER_SEC as nat, 9)
}

/// The decimal score of a timestamp of `n` nanoseconds: seconds, with a
/// minus sign before the epoch. This is the score of a point in the sorted
/// set, and the number in the range bounds built from the same timestamp.
pub open spec fn score_text(n: int) -> Seq<u8> {
    if n < 0 {
        seq![45u8] + seconds_text((-n) as nat)
    } else {
        seconds_text(n as nat)
    }
}

fn push_decimal(n: u64, out: &mut Vec<u8>)
    ensures
        final(out)@ == old(out)@ + decimal(n as nat),
    decreases n,
{
    if n < 10 {
        out.push((48 + n) as u8);
    } else {
        push_decimal(n / 10, out);
        out.push((48 + n % 10) as u8);
    }
    assert(final(out)@ == old(out)@ + decimal(n as nat));
}

fn push_padded(n: u64, w: u64, out: &mut Vec<u8>)
    ensures
        final(out)@ == old(out)@ + padded(n as nat, w as nat),
    decreases w,
{
    if w > 0 {
        push_padded(n / 10, w - 1, out);
        out.push((48 + n % 10) as u8);
    }
    assert(final(out)@ == old(out)@ + padded(n as nat, w as nat));
}

/// Writes the score of a timestamp as decimal seconds.
pub fn score_of(ts: Timestamp) -> (r: Vec<u8>)
    ensures
        r@ == score_text(ts.nanos as int),
{
    let n = ts.nanos;
    let mut out: Vec<u8> = Vec::new();
    let m: u64 = if n < 0 {
        out.push(45u8);
        (-(n as i128)) as u64
    } else {
        n as u64
    };
    push_decimal(m / NANOS_PER_SEC, &mut out);
    out.push(46u8);
    push_padded(m % NANOS_PER_SEC, 9, &mut out);
    proof {
        if n < 0 {
            assert(out@ =~= seq![45u8] + seconds_text(m as nat));
        } else {
            assert(out@ =~= seconds_text(m as nat));
        }
    }
    out
}

/// One end of a score range of the sorted set.
#[derive(Clone, Copy, Debug, PartialEq, Eq)]
pub enum Bound {
    /// Below every score.
    NegInfinity,
    /// Above every score.
    PosInfinity,
    /// The score of the timestamp, itself included.
    Inclusive(Timestamp),
    /// The score of the timestamp, itself excluded.
    Exclusive(Timestamp),
}

/// The argument that stands for a bound in a range command: `-inf`, `+inf`,
/// the score, or the score after an opening parenthesis.
pub open spec fn bound_text(b: Bound) -> Seq<u8> {
    match b {
        Bound::NegInfinity => seq![45u8, 105u8, 110u8, 102u8],
        Bound::PosInfinity => seq![43u8, 105u8, 110u8, 102u8],
        Bound::Inclusive(ts) => score_text(ts.nanos as int),
        Bound::Exclusive(ts) => seq![40u8] + score_text(ts.nanos as int),
    }
}

/// Whether a point at `s` nanoseconds lies on the admitted side of `b`
/// taken as the lower end of a range.
pub open spec fn admits_above(b: Bound, s: int) -> bool {
    match b {
        Bound::NegInfinity => true,
        Bound::PosInfinity => false,
        Bound::Inclusive(ts) => ts.nanos <= s,
        Bound::Exclusive(ts) => ts.nanos < s,
    }
}

/// Whether a point at `s` nanoseconds lies on the admitted side of `b`
/// taken as the upper end of a range.
pub open spec fn admits_below(b: Bound, s: int) -> bool {
    match b {
        Bound::NegInfinity => false,
        Bound::PosInfinity => true,
        Bound::Inclusive(ts) => s <= ts.nanos,
        Bound::Exclusive(ts) => s < ts.nanos,
    }
}

/// Whether a point at `s` nanoseconds lies in the range from `lo` to `hi`.
///
/// This compares exact nanoseconds. The server compares the scores as
/// doubles, which near the present lie about 238 ns apart: two timestamps
/// closer than that may get one score, and then a bound between them is
/// not kept to the nanosecond.
pub open spec fn in_range(lo: Bound, hi: Bound, s: int) -> bool {
    admits_above(lo, s) && admits_below(hi, s)
}

impl Bound {
    /// The argument that stands for this bound in a range command.
    pub fn to_arg(&self) -> (r: Vec<u8>)
        ensures
            r@ == bound_text(*self),
    {
        match self {
            Bound::NegInfinity => {
                let r = vec![45u8, 105u8, 110u8, 102u8];
                assert(r@ =~= bound_text(*self));
                r
            },
            Bound::PosInfinity => {
                let r = vec![43u8, 105u8, 110u8, 102u8];
                assert(r@ =~= bound_text(*self));
                r
            },
            Bound::Inclusive(ts) => score_of(*ts),
            Bound::Exclusive(ts) => {
                let mut r = vec![40u8];
                let mut s = score_of(*ts);
                r.append(&mut s);
                assert(r@ =~= bound_text(*self));
                r
            },
        }
    }
}

} // verus!
