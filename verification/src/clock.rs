//! Points in time, and the spans between them.

use chrono::DateTime;
use vstd::prelude::*;

verus! {

/// The first second that a [`Timestamp`] may lie in, counted from the Unix epoch.
pub const MIN_SECS: i64 = -8_334_601_228_800;

/// The last second that a [`Timestamp`] may lie in.
pub const MAX_SECS: i64 = 8_210_266_876_799;

/// A point in time: seconds since the Unix epoch, and nanoseconds into that second.
#[derive(Clone, Copy, Debug, PartialEq, Eq, Structural)]
pub struct Timestamp {
    secs: i64,
    nanos: u32,
}

/// Whether a point in time has these seconds and nanoseconds.
pub open spec fn in_range(secs: int, nanos: int) -> bool {
    MIN_SECS <= secs <= MAX_SECS && 0 <= nanos < 1_000_000_000
}

impl Timestamp {
    /// Seconds since the Unix epoch.
    pub closed spec fn secs(self) -> int {
        self.secs as int
    }

    /// Nanoseconds into the second.
    pub closed spec fn nanos(self) -> int {
        self.nanos as int
    }

    /// Nanoseconds since the Unix epoch.
    pub open spec fn total(self) -> int {
        self.secs() * 1_000_000_000 + self.nanos()
    }

    #[verifier::type_invariant]
    spec fn valid(self) -> bool {
        in_range(self.secs(), self.nanos())
    }

    /// The point in time with these seconds and nanoseconds, if it is in range.
    pub fn new(secs: i64, nanos: u32) -> (r: Option<Timestamp>)
        ensures
            match r {
                Some(t) => t.secs() == secs && t.nanos() == nanos && in_range(
                    secs as int,
                    nanos as int,
                ),
                None => !in_range(secs as int, nanos as int),
            },
    {
        if MIN_SECS <= secs && secs <= MAX_SECS && nanos < 1_000_000_000 {
            Some(Timestamp { secs, nanos })
        } else {
            None
        }
    }

    /// Whether this point is `other` or later.
    pub fn not_before(self, other: Timestamp) -> (r: bool)
        ensures
            r == (self.total() >= other.total()),
    {
        proof {
            use_type_invariant(&self);
            use_type_invariant(&other);
        }
        self.secs > other.secs || (self.secs == other.secs && self.nanos >= other.nanos)
    }

    /// The later of two points.
    pub fn later(self, other: Timestamp) -> (r: Timestamp)
        ensures
            r == later_of(self, other),
    {
        if self.not_before(other) {
            self
        } else {
            other
        }
    }

    /// Whether two points are the same.
    pub fn same(self, other: Timestamp) -> (r: bool)
        ensures
            r == (self == other),
    {
        self == other
    }
}

/// The later of two points.
pub open spec fn later_of(a: Timestamp, b: Timestamp) -> Timestamp {
    if a.total() >= b.total() {
        a
    } else {
        b
    }
}

/// `a / b` rounded towards zero, for a positive `b`.
pub open spec fn toward_zero(a: int, b: int) -> int {
    if a >= 0 {
        a / b
    } else {
        -((-a) / b)
    }
}

/// Whole minutes from `from` to `to`, by `chrono`'s `TimeDelta::num_minutes` on
/// `DateTime::signed_duration_since`: the nanoseconds between the points, divided by
/// those of a minute and rounded towards zero.
#[verifier::external_body]
fn chrono_minutes(from: Timestamp, to: Timestamp) -> (r: i64)
    requires
        in_range(from.secs(), from.nanos()),
        in_range(to.secs(), to.nanos()),
    ensures
        r == toward_zero(to.total() - from.total(), 60_000_000_000),
{
    let a = DateTime::from_timestamp(from.secs, from.nanos).expect("a timestamp in range");
    let b = DateTime::from_timestamp(to.secs, to.nanos).expect("a timestamp in range");
    b.signed_duration_since(a).num_minutes()
}

/// Whole milliseconds from `from` to `to`, by `chrono`'s
/// `TimeDelta::num_milliseconds` on `DateTime::signed_duration_since`: the
/// nanoseconds between the points, divided by those of a millisecond and rounded
/// towards zero.
#[verifier::external_body]
fn chrono_millis(from: Timestamp, to: Timestamp) -> (r: i64)
    requires
        in_range(from.secs(), from.nanos()),
        in_range(to.secs(), to.nanos()),
    ensures
        r == toward_zero(to.total() - from.total(), 1_000_000),
{
    let a = DateTime::from_timestamp(from.secs, from.nanos).expect("a timestamp in range");
    let b = DateTime::from_timestamp(to.secs, to.nanos).expect("a timestamp in range");
    b.signed_duration_since(a).num_milliseconds()
}

/// Whole minutes from `from` to `to`; negative where `to` comes first.
pub fn minutes_between(from: Timestamp, to: Timestamp) -> (r: i64)
    ensures
        r == toward_zero(to.total() - from.total(), 60_000_000_000),
{
    proof {
        use_type_invariant(&from);
        use_type_invariant(&to);
    }
    chrono_minutes(from, to)
}

/// Whole milliseconds from `from` to `to`; zero where `to` comes first.
pub open spec fn elapsed_ms(from: Timestamp, to: Timestamp) -> nat {
    if to.total() >= from.total() {
        ((to.total() - from.total()) / 1_000_000) as nat
    } else {
        0
    }
}

/// Whole milliseconds from `from` to `to`; zero where `to` comes first.
pub fn elapsed_millis(from: Timestamp, to: Timestamp) -> (r: u64)
    ensures
        r == elapsed_ms(from, to),
{
    proof {
        use_type_invariant(&from);
        use_type_invariant(&to);
    }
    let span: i64 = chrono_millis(from, to);
    if span > 0 {
        span as u64
    } else {
        0
    }
}

/// The text that `chrono` writes for the point with these seconds and nanoseconds, in
/// universal time.
pub uninterp spec fn rfc3339_text(secs: int, nanos: int) -> Seq<char>;

/// `chrono`'s `DateTime::to_rfc3339`, in universal time: the text is determined by the
/// point in time.
#[verifier::external_body]
fn chrono_rfc3339(t: Timestamp) -> (r: String)
    requires
        in_range(t.secs(), t.nanos()),
    ensures
        r@ == rfc3339_text(t.secs(), t.nanos()),
{
    let d = DateTime::from_timestamp(t.secs, t.nanos).expect("a timestamp in range");
    d.to_rfc3339()
}

/// A point in time as a text with its date, its time and its zone.
pub fn rfc3339(t: Timestamp) -> (r: String)
    ensures
        r@ == rfc3339_text(t.secs(), t.nanos()),
{
    proof {
        use_type_invariant(&t);
    }
    chrono_rfc3339(t)
}

/// The later of two points is one of them, and neither is later than it.
pub proof fn law_later_point_is_not_before_either(a: Timestamp, b: Timestamp)
    ensures
        later_of(a, b) == a || later_of(a, b) == b,
        later_of(a, b).total() >= a.total(),
        later_of(a, b).total() >= b.total(),
        a.total() > b.total() ==> later_of(a, b) == a,
        b.total() > a.total() ==> later_of(a, b) == b,
{
}

/// What is rounded towards zero is the largest whole number of times that the divisor fits,
/// and the same for a negative number with the sign turned.
pub proof fn law_rounding_goes_towards_zero(a: int, b: int)
    requires
        b > 0,
    ensures
        a >= 0 ==> toward_zero(a, b) * b <= a < (toward_zero(a, b) + 1) * b,
        toward_zero(-a, b) == -toward_zero(a, b),
{
    if a >= 0 {
        vstd::arithmetic::div_mod::lemma_fundamental_div_mod(a, b);
        let q = a / b;
        assert(q * b <= a < (q + 1) * b) by (nonlinear_arith)
            requires
                a == b * q + a % b,
                0 <= a % b < b,
        ;
    }
    if a == 0 {
        assert(0int / b == 0) by (nonlinear_arith)
            requires
                b > 0,
        ;
    }
}

/// The milliseconds from one point to another are those that have passed in full; none have
/// where the other came first.
pub proof fn law_full_milliseconds_are_counted(from: Timestamp, to: Timestamp)
    ensures
        to.total() >= from.total() ==> elapsed_ms(from, to) * 1_000_000 <= to.total()
            - from.total() < (elapsed_ms(from, to) + 1) * 1_000_000,
        to.total() < from.total() ==> elapsed_ms(from, to) == 0,
{
}

} // verus!
