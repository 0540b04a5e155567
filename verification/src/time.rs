//! Instants and spans of time, held as plain integers.
//!
//! The calendar is chrono's: the trusted functions below hand their integers to
//! chrono and read the answer back as integers.

use crate::text;
use vstd::prelude::*;

verus! {

/// Nanoseconds in a second.
pub const NANOS_PER_SEC: i64 = 1_000_000_000;

/// The first second that chrono's calendar reaches, counted from the epoch.
pub const MIN_SECS: i64 = -8_334_601_228_800;

/// The last second that chrono's calendar reaches, counted from the epoch.
pub const MAX_SECS: i64 = 8_210_266_876_799;

/// The whole seconds of the longest span that chrono's constructors admit.
pub const MAX_DELTA_SECS: i64 = 9_223_372_036_854_775;

/// The nanoseconds of the longest span past [`MAX_DELTA_SECS`].
pub const MAX_DELTA_NANOS: i32 = 807_000_000;

/// Whether `secs` and `nanos` denote an instant of the calendar. A leap second
/// is the last second of a minute with `nanos` past a whole second.
pub open spec fn is_instant(secs: int, nanos: int) -> bool {
    &&& MIN_SECS <= secs <= MAX_SECS
    &&& 0 <= nanos < 2 * NANOS_PER_SEC
    &&& nanos >= NANOS_PER_SEC ==> secs % 60 == 59
}

/// Whether whole seconds and the nanoseconds past them agree in sign.
pub open spec fn balanced(secs: int, nanos: int) -> bool {
    &&& -NANOS_PER_SEC < nanos < NANOS_PER_SEC
    &&& secs > 0 ==> nanos >= 0
    &&& secs < 0 ==> nanos <= 0
}

/// Nanoseconds in the longest span that chrono's constructors admit.
pub open spec fn max_total() -> int {
    i64::MAX * 1_000_000
}

/// `a / b` with the rest cut off, towards zero.
pub open spec fn truncated(a: int, b: int) -> int {
    if a < 0 {
        -((-a) / b)
    } else {
        a / b
    }
}

/// An instant in UTC: seconds since the epoch, and the nanoseconds past that
/// second (up to two seconds of them within a leap second).
#[derive(Clone, Copy, Debug, PartialEq, Eq, PartialOrd, Ord, Hash, Structural)]
pub struct Timestamp {
    secs: i64,
    nanos: u32,
}

/// A signed span of time: whole seconds, truncated towards zero, and the
/// nanoseconds past them, which carry the same sign.
#[derive(Clone, Copy, Debug, PartialEq, Eq, PartialOrd, Ord, Hash, Structural)]
pub struct TimeDelta {
    secs: i64,
    nanos: i32,
}

impl Timestamp {
    #[verifier::type_invariant]
    pub closed spec fn on_calendar(self) -> bool {
        is_instant(self.secs as int, self.nanos as int)
    }

    /// Seconds since the epoch.
    pub closed spec fn secs(self) -> int {
        self.secs as int
    }

    /// Nanoseconds past the second.
    pub closed spec fn nanos(self) -> int {
        self.nanos as int
    }

    /// Whether this instant lies within a leap second.
    pub open spec fn is_leap(self) -> bool {
        self.nanos() >= NANOS_PER_SEC
    }

    /// Nanoseconds since the epoch.
    pub open spec fn total(self) -> int {
        self.secs() * NANOS_PER_SEC + self.nanos()
    }

    /// Whether this instant comes before `other`.
    pub open spec fn lt(self, other: Timestamp) -> bool {
        self.secs() < other.secs() || (self.secs() == other.secs() && self.nanos() < other.nanos())
    }

    /// Whether this instant is not after `other`.
    pub open spec fn le(self, other: Timestamp) -> bool {
        !other.lt(self)
    }

    /// Nanoseconds from `earlier` to this instant. A leap second that lies
    /// between the two times of day is counted.
    pub open spec fn nanos_since(self, earlier: Timestamp) -> int {
        let today = self.secs() % 86_400;
        let then = earlier.secs() % 86_400;
        let leap = if today > then && earlier.is_leap() {
            NANOS_PER_SEC as int
        } else if today < then && self.is_leap() {
            -NANOS_PER_SEC
        } else {
            0
        };
        self.total() - earlier.total() + leap
    }
}

/// An instant is its seconds and its nanoseconds, and lies on the calendar.
pub proof fn timestamp_is_its_fields(a: Timestamp, b: Timestamp)
    ensures
        a == b <==> a.secs() == b.secs() && a.nanos() == b.nanos(),
        a.on_calendar() <==> is_instant(a.secs(), a.nanos()),
{
}

/// Outside leap seconds, the span between two instants is the difference of
/// their nanoseconds, and its sign says which one comes first.
pub proof fn elapsed_without_leaps(now: Timestamp, then: Timestamp)
    requires
        !now.is_leap(),
        !then.is_leap(),
        now.on_calendar(),
        then.on_calendar(),
    ensures
        now.nanos_since(then) == now.total() - then.total(),
        now.nanos_since(then) < 0 <==> now.lt(then),
{
}

impl TimeDelta {
    /// Only a product can be longer than chrono's constructors admit.
    #[verifier::type_invariant]
    pub closed spec fn in_balance(self) -> bool {
        balanced(self.secs as int, self.nanos as int) && self.total() >= -max_total()
    }

    /// The span in nanoseconds.
    pub closed spec fn total(self) -> int {
        self.secs * NANOS_PER_SEC + self.nanos
    }
}

/// Two spans are the same exactly when they are equally long.
pub proof fn delta_is_its_total(a: TimeDelta, b: TimeDelta)
    requires
        a.in_balance(),
        b.in_balance(),
    ensures
        a == b <==> a.total() == b.total(),
{
}

/// `DateTime::from_timestamp` of chrono: the instant with these seconds and
/// nanoseconds, or nothing where the calendar does not reach it. It is read
/// back with `timestamp` and `timestamp_subsec_nanos`.
#[verifier::external_body]
fn chrono_from_timestamp(secs: i64, nanos: u32) -> (r: Option<(i64, u32)>)
    ensures
        is_instant(secs as int, nanos as int) ==> r == Some((secs, nanos)),
        !is_instant(secs as int, nanos as int) ==> r is None,
{
    let at = chrono::DateTime::from_timestamp(secs, nanos)?;
    Some((at.timestamp(), at.timestamp_subsec_nanos()))
}

/// `Utc::now` of chrono: the current instant, whichever that is.
#[verifier::external_body]
fn chrono_now() -> (r: (i64, u32))
    ensures
        is_instant(r.0 as int, r.1 as int),
{
    let at = chrono::Utc::now();
    (at.timestamp(), at.timestamp_subsec_nanos())
}

/// `DateTime::from_timestamp_millis` of chrono: the instant so many
/// milliseconds from the epoch, or nothing where the calendar does not reach it.
#[verifier::external_body]
fn chrono_from_timestamp_millis(millis: i64) -> (r: Option<(i64, u32)>)
    ensures
        match r {
            Some(at) => at.0 == millis as int / 1000 && at.1 == (millis as int % 1000) * 1_000_000
                && is_instant(at.0 as int, at.1 as int),
            None => !(MIN_SECS <= millis as int / 1000 <= MAX_SECS),
        },
{
    let at = chrono::DateTime::from_timestamp_millis(millis)?;
    Some((at.timestamp(), at.timestamp_subsec_nanos()))
}

/// `DateTime::timestamp_nanos_opt` of chrono: nanoseconds since the epoch, or
/// nothing where they do not fit in an `i64`.
#[verifier::external_body]
fn chrono_timestamp_nanos_opt(at: Timestamp) -> (r: Option<i64>)
    ensures
        match r {
            Some(n) => n == at.total(),
            None => !(i64::MIN <= at.total() <= i64::MAX),
        },
{
    chrono::DateTime::from_timestamp(at.secs, at.nanos).unwrap().timestamp_nanos_opt()
}

/// `DateTime::signed_duration_since` of chrono: the span from one instant to
/// another, read back with `num_seconds` and `subsec_nanos`.
#[verifier::external_body]
fn chrono_signed_duration_since(later: Timestamp, earlier: Timestamp) -> (r: (i64, i32))
    ensures
        balanced(r.0 as int, r.1 as int),
        r.0 * NANOS_PER_SEC + r.1 == later.nanos_since(earlier),
{
    let a = chrono::DateTime::from_timestamp(later.secs, later.nanos).unwrap();
    let b = chrono::DateTime::from_timestamp(earlier.secs, earlier.nanos).unwrap();
    let span = a.signed_duration_since(b);
    (span.num_seconds(), span.subsec_nanos())
}

/// `DateTime::checked_sub_signed` of chrono, for a positive span: the instant
/// that much earlier, or nothing where the calendar does not reach it. A span
/// under a second keeps the second field of a leap second; any other result is
/// not within a leap second.
#[verifier::external_body]
fn chrono_checked_sub_signed(at: Timestamp, span: TimeDelta) -> (r: Option<(i64, u32)>)
    requires
        0 < span.total() <= max_total(),
    ensures
        match r {
            Some(back) => {
                &&& is_instant(back.0 as int, back.1 as int)
                &&& back.0 * NANOS_PER_SEC + back.1 == at.total() - span.total()
                &&& if at.is_leap() && span.total() < NANOS_PER_SEC {
                    back.0 == at.secs()
                } else {
                    back.1 < NANOS_PER_SEC
                }
            },
            None => at.total() - span.total() < MIN_SECS * NANOS_PER_SEC,
        },
{
    let from = chrono::DateTime::from_timestamp(at.secs, at.nanos).unwrap();
    let span = chrono::TimeDelta::new(span.secs, span.nanos as u32).unwrap();
    let back = from.checked_sub_signed(span)?;
    Some((back.timestamp(), back.timestamp_subsec_nanos()))
}

/// The `Display` form of a `chrono::DateTime<Utc>` at these seconds and
/// nanoseconds.
pub uninterp spec fn timestamp_text(secs: int, nanos: int) -> Seq<char>;

/// The `Display` of chrono's `DateTime<Utc>`. What it writes is named, not
/// described.
#[verifier::external_body]
fn chrono_display_timestamp(at: Timestamp) -> (r: String)
    ensures
        r@ == timestamp_text(at.secs(), at.nanos()),
{
    chrono::DateTime::from_timestamp(at.secs, at.nanos).unwrap().to_string()
}

/// `TimeDelta::try_seconds` of chrono: so many whole seconds, or nothing where
/// they are more than `i64::MAX` milliseconds either way.
#[verifier::external_body]
fn chrono_try_seconds(seconds: i64) -> (r: Option<(i64, i32)>)
    ensures
        -MAX_DELTA_SECS <= seconds <= MAX_DELTA_SECS ==> r == Some((seconds, 0i32)),
        !(-MAX_DELTA_SECS <= seconds <= MAX_DELTA_SECS) ==> r is None,
{
    let span = chrono::TimeDelta::try_seconds(seconds)?;
    Some((span.num_seconds(), span.subsec_nanos()))
}

/// `f` written with `width` digits.
pub open spec fn padded(f: nat, width: nat) -> Seq<char>
    decreases width,
{
    if width == 0 {
        Seq::empty()
    } else {
        padded(f / 10, (width - 1) as nat).push(text::digit((f % 10) as int))
    }
}

/// The digits of the fraction `f / 10^width`, without trailing zeros.
pub open spec fn fraction(f: nat, width: nat) -> Seq<char>
    decreases width,
{
    if width > 0 && f % 10 == 0 {
        fraction(f / 10, (width - 1) as nat)
    } else {
        padded(f, width)
    }
}

/// A span of `total` nanoseconds in ISO 8601 form, after `-` where it is
/// negative: `P0D`, or seconds with their fraction between `PT` and `S`.
pub open spec fn delta_text(total: int) -> Seq<char> {
    let size = if total < 0 { -total } else { total };
    let sign = if total < 0 { "-"@ } else { ""@ };
    let past = (size % 1_000_000_000) as nat;
    let point = if past == 0 { ""@ } else { "."@ + fraction(past, 9) };
    if total == 0 {
        "P0D"@
    } else {
        sign + "PT"@ + text::numeral((size / 1_000_000_000) as nat) + point + "S"@
    }
}

/// The `Display` of chrono's `TimeDelta`: the span in ISO 8601 form.
#[verifier::external_body]
fn chrono_display_delta(span: TimeDelta) -> (r: String)
    requires
        span.total() <= max_total(),
    ensures
        r@ == delta_text(span.total()),
{
    let whole = chrono::TimeDelta::seconds(span.secs);
    (whole + chrono::TimeDelta::nanoseconds(span.nanos as i64)).to_string()
}

impl Timestamp {
    /// The current instant.
    pub fn now() -> (r: Timestamp)
        ensures
            r.on_calendar(),
    {
        let (secs, nanos) = chrono_now();
        Timestamp { secs, nanos }
    }

    /// The instant with these seconds since the epoch and nanoseconds past
    /// them, or nothing where there is none.
    pub fn from_timestamp(secs: i64, nanos: u32) -> (r: Option<Timestamp>)
        ensures
            r is Some <==> is_instant(secs as int, nanos as int),
            r matches Some(at) ==> at.secs() == secs && at.nanos() == nanos,
    {
        match chrono_from_timestamp(secs, nanos) {
            Some((secs, nanos)) => Some(Timestamp { secs, nanos }),
            None => None,
        }
    }

    /// The instant so many milliseconds from the epoch, or nothing where the
    /// calendar does not reach it.
    pub fn from_timestamp_millis(millis: i64) -> (r: Option<Timestamp>)
        ensures
            r is Some <==> MIN_SECS <= millis as int / 1000 <= MAX_SECS,
            r matches Some(at) ==> at.on_calendar() && !at.is_leap() && at.total() == millis
                * 1_000_000,
    {
        match chrono_from_timestamp_millis(millis) {
            Some((secs, nanos)) => Some(Timestamp { secs, nanos }),
            None => None,
        }
    }

    /// Whole seconds since the epoch.
    pub fn timestamp(self) -> (r: i64)
        ensures
            r == self.secs(),
    {
        self.secs
    }

    /// Nanoseconds past the second.
    pub fn timestamp_subsec_nanos(self) -> (r: u32)
        ensures
            r == self.nanos(),
    {
        self.nanos
    }

    /// Milliseconds since the epoch, the rest of a millisecond cut off.
    pub fn timestamp_millis(self) -> (r: i64)
        ensures
            r == self.total() / 1_000_000,
    {
        proof {
            use_type_invariant(&self);
        }
        self.secs * 1000 + (self.nanos / 1_000_000) as i64
    }

    /// Nanoseconds since the epoch, or nothing where they do not fit.
    pub fn timestamp_nanos_opt(self) -> (r: Option<i64>)
        ensures
            match r {
                Some(n) => n == self.total(),
                None => !(i64::MIN <= self.total() <= i64::MAX),
            },
    {
        chrono_timestamp_nanos_opt(self)
    }

    /// The span from `earlier` to this instant; negative where this one comes
    /// first.
    pub fn signed_duration_since(self, earlier: Timestamp) -> (r: TimeDelta)
        ensures
            r.in_balance(),
            r.total() == self.nanos_since(earlier),
    {
        proof {
            use_type_invariant(&self);
            use_type_invariant(&earlier);
        }
        let (secs, nanos) = chrono_signed_duration_since(self, earlier);
        TimeDelta { secs, nanos }
    }

    /// The instant a positive span earlier, or nothing where the calendar does
    /// not reach it.
    pub fn checked_sub_signed(self, span: TimeDelta) -> (r: Option<Timestamp>)
        requires
            span.total() > 0,
        ensures
            match r {
                Some(at) => {
                    &&& at.on_calendar()
                    &&& at.total() == self.total() - span.total()
                    &&& if self.is_leap() && span.total() < NANOS_PER_SEC {
                        at.secs() == self.secs()
                    } else {
                        !at.is_leap()
                    }
                },
                None => self.total() - span.total() < MIN_SECS * NANOS_PER_SEC,
            },
    {
        proof {
            use_type_invariant(&self);
            use_type_invariant(&span);
        }
        if TimeDelta::longest().is_less(span) {
            return None;
        }
        match chrono_checked_sub_signed(self, span) {
            Some((secs, nanos)) => Some(Timestamp { secs, nanos }),
            None => None,
        }
    }

    /// Whether this instant comes before `other`.
    pub fn is_before(self, other: Timestamp) -> (r: bool)
        ensures
            r == self.lt(other),
    {
        self.secs < other.secs || (self.secs == other.secs && self.nanos < other.nanos)
    }

    /// The instant as text.
    pub fn to_string(self) -> (r: String)
        ensures
            r@ == timestamp_text(self.secs(), self.nanos()),
    {
        chrono_display_timestamp(self)
    }
}

impl TimeDelta {
    /// The longest span that chrono's constructors admit.
    pub fn longest() -> (r: TimeDelta)
        ensures
            r.in_balance(),
            r.total() == max_total(),
    {
        TimeDelta { secs: MAX_DELTA_SECS, nanos: MAX_DELTA_NANOS }
    }

    /// So many seconds and the nanoseconds past them, less than a second, or nothing
    /// where they are out of range.
    pub fn new(secs: i64, nanos: u32) -> (r: Option<TimeDelta>)
        ensures
            r is Some <==> nanos < NANOS_PER_SEC && -max_total() <= secs * NANOS_PER_SEC + nanos
                <= max_total(),
            r matches Some(span) ==> span.in_balance() && span.total() == secs * NANOS_PER_SEC
                + nanos,
    {
        if nanos >= 1_000_000_000 || secs > MAX_DELTA_SECS || secs < -MAX_DELTA_SECS - 1 {
            return None;
        }
        let total: i128 = secs as i128 * 1_000_000_000 + nanos as i128;
        let limit: i128 = i64::MAX as i128 * 1_000_000;
        if total > limit || total < -limit {
            return None;
        }
        if secs < 0 && nanos > 0 {
            Some(TimeDelta { secs: secs + 1, nanos: nanos as i32 - 1_000_000_000 })
        } else {
            Some(TimeDelta { secs, nanos: nanos as i32 })
        }
    }

    /// So many whole seconds, or nothing where they are out of range.
    pub fn try_seconds(seconds: i64) -> (r: Option<TimeDelta>)
        ensures
            r is Some <==> -MAX_DELTA_SECS <= seconds <= MAX_DELTA_SECS,
            r matches Some(span) ==> span.in_balance() && span.total() == seconds * NANOS_PER_SEC,
    {
        match chrono_try_seconds(seconds) {
            Some((secs, nanos)) => Some(TimeDelta { secs, nanos }),
            None => None,
        }
    }

    /// So many whole seconds, which must be in range.
    pub fn seconds(seconds: i64) -> (r: TimeDelta)
        requires
            -MAX_DELTA_SECS <= seconds <= MAX_DELTA_SECS,
        ensures
            r.in_balance(),
            r.total() == seconds * NANOS_PER_SEC,
    {
        TimeDelta { secs: seconds, nanos: 0 }
    }

    /// So many milliseconds.
    pub fn milliseconds(millis: u32) -> (r: TimeDelta)
        ensures
            r.in_balance(),
            r.total() == millis * 1_000_000,
    {
        TimeDelta { secs: (millis / 1000) as i64, nanos: (millis % 1000) as i32 * 1_000_000 }
    }

    /// The whole seconds, truncated towards zero.
    pub fn num_seconds(self) -> (r: i64)
        ensures
            r == truncated(self.total(), NANOS_PER_SEC as int),
    {
        proof {
            use_type_invariant(&self);
        }
        self.secs
    }

    /// A span that is not negative, `times` over, or nothing where its seconds
    /// do not stay below `i64::MAX`.
    pub fn checked_mul(self, times: u32) -> (r: Option<TimeDelta>)
        requires
            self.total() >= 0,
            times <= i32::MAX,
        ensures
            match r {
                Some(product) => {
                    &&& product.in_balance()
                    &&& product.total() == self.total() * times
                    &&& product.total() < i64::MAX * NANOS_PER_SEC
                },
                None => self.total() * times >= i64::MAX * NANOS_PER_SEC,
            },
    {
        proof {
            use_type_invariant(&self);
        }
        let n: i128 = times as i128;
        let past: i128 = self.nanos as i128;
        let whole: i128 = self.secs as i128;
        assert(0 <= past * n <= 1_000_000_000 * 0x7FFF_FFFF) by (nonlinear_arith)
            requires
                0 <= past < 1_000_000_000,
                0 <= n <= 0x7FFF_FFFF,
        ;
        assert(0 <= whole * n <= 0x7FFF_FFFF_FFFF_FFFF * 0x7FFF_FFFF) by (nonlinear_arith)
            requires
                0 <= whole <= 0x7FFF_FFFF_FFFF_FFFF,
                0 <= n <= 0x7FFF_FFFF,
        ;
        let nanos: i128 = past * n;
        let secs: i128 = whole * n + nanos / 1_000_000_000;
        assert(self.total() * times == whole * n * 1_000_000_000 + nanos) by (nonlinear_arith)
            requires
                self.total() == whole * 1_000_000_000 + past,
                n == times,
                nanos == past * n,
        ;
        if secs >= i64::MAX as i128 {
            return None;
        }
        Some(TimeDelta { secs: secs as i64, nanos: (nanos % 1_000_000_000) as i32 })
    }

    /// The span in nanoseconds.
    pub fn total_nanos(self) -> (r: i128)
        ensures
            r == self.total(),
    {
        self.secs as i128 * 1_000_000_000 + self.nanos as i128
    }

    /// Nanoseconds of a span stay far within an `i128`.
    pub proof fn nanos_fit(self)
        ensures
            -0x1_0000_0000_0000_0000_0000_0000 < self.total()
                < 0x1_0000_0000_0000_0000_0000_0000,
    {
    }

    /// Whether this span is shorter than `other`.
    pub fn is_less(self, other: TimeDelta) -> (r: bool)
        ensures
            r == (self.total() < other.total()),
    {
        proof {
            use_type_invariant(&self);
            use_type_invariant(&other);
        }
        self.secs < other.secs || (self.secs == other.secs && self.nanos < other.nanos)
    }

    /// The span in ISO 8601 form.
    pub fn to_string(self) -> (r: String)
        requires
            self.total() <= max_total(),
        ensures
            r@ == delta_text(self.total()),
    {
        chrono_display_delta(self)
    }
}

/// Outside leap seconds, instants are ordered as their nanoseconds are.
pub proof fn instants_are_ordered_as_they_count(a: Timestamp, b: Timestamp)
    requires
        0 <= a.nanos() < 1_000_000_000,
        0 <= b.nanos() < 1_000_000_000,
    ensures
        a.lt(b) <==> a.secs() * 1_000_000_000 + a.nanos() < b.secs() * 1_000_000_000 + b.nanos(),
        a.le(b) <==> a.secs() * 1_000_000_000 + a.nanos() <= b.secs() * 1_000_000_000 + b.nanos(),
{
}

/// Truncation drops what is left over, towards zero.
pub proof fn truncation_is_towards_zero(a: int, b: int)
    requires
        b > 0,
    ensures
        a >= 0 ==> 0 <= a - truncated(a, b) * b < b,
        a <= 0 ==> 0 <= truncated(a, b) * b - a < b,
{
    let size = if a < 0 {
        -a
    } else {
        a
    };
    assert(0 <= size - (size / b) * b < b) by (nonlinear_arith)
        requires
            b > 0,
            size >= 0,
    ;
    assert((-(size / b)) * b == -((size / b) * b)) by (nonlinear_arith);
}

} // verus!
