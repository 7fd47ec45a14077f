//! Wall-clock times of day, local date-times and monotonic instants.

use vstd::prelude::*;
use crate::days::Weekday;
use crate::text::{decimal, push_decimal};
use chrono::Timelike;

verus! {

/// Nanoseconds in one second.
pub const NANOS_PER_SEC: u32 = 1_000_000_000;

/// Seconds in one day.
pub const SECS_PER_DAY: u32 = 86_400;

/// A time of day: seconds since midnight plus a sub-second part.
///
/// Ordered first by `secs`, then by `nanos`. A leap second is represented, as
/// in the rest of the ecosystem, by `nanos >= 1_000_000_000` on the last
/// second of a minute.
#[derive(Debug, Clone, Copy, PartialEq, Eq, Structural)]
pub struct ClockTime {
    pub secs: u32,
    pub nanos: u32,
}

impl ClockTime {
    /// A time of day is well formed when it lies within one day.
    pub open spec fn wf(self) -> bool {
        self.secs < SECS_PER_DAY && self.nanos < 2 * NANOS_PER_SEC
    }

    /// `self` is strictly earlier in the day than `other`.
    pub open spec fn lt(self, other: ClockTime) -> bool {
        self.secs < other.secs || (self.secs == other.secs && self.nanos < other.nanos)
    }

    /// `self` is earlier than or equal to `other`.
    pub open spec fn le(self, other: ClockTime) -> bool {
        self.lt(other) || self == other
    }

    /// The hour (0..=23) of a well-formed time.
    pub open spec fn hour_of(self) -> int {
        self.secs as int / 3600
    }

    /// The minute within the hour.
    pub open spec fn minute_of(self) -> int {
        (self.secs as int % 3600) / 60
    }

    /// The time `hour:minute:second`, when those are in range.
    pub fn from_hms(hour: u32, minute: u32, second: u32) -> (r: Option<ClockTime>)
        ensures
            r is Some <==> (hour < 24 && minute < 60 && second < 60),
            r matches Some(t) ==> t.secs == hour * 3600 + minute * 60 + second && t.nanos == 0
                && t.wf(),
    {
        if hour < 24 && minute < 60 && second < 60 {
            Some(ClockTime { secs: hour * 3600 + minute * 60 + second, nanos: 0 })
        } else {
            None
        }
    }

    /// Midnight.
    pub fn midnight() -> (r: ClockTime)
        ensures
            r.secs == 0 && r.nanos == 0,
    {
        ClockTime { secs: 0, nanos: 0 }
    }

    /// The whole-second part of this time (sub-second part dropped).
    pub fn whole_second(&self) -> (r: ClockTime)
        ensures
            r.secs == self.secs && r.nanos == 0,
    {
        ClockTime { secs: self.secs, nanos: 0 }
    }

    /// Strictly earlier in the day.
    pub fn is_before(&self, other: &ClockTime) -> (r: bool)
        ensures
            r == self.lt(*other),
    {
        self.secs < other.secs || (self.secs == other.secs && self.nanos < other.nanos)
    }

    /// Earlier or equal.
    pub fn is_at_or_before(&self, other: &ClockTime) -> (r: bool)
        ensures
            r == self.le(*other),
    {
        self.is_before(other) || (self.secs == other.secs && self.nanos == other.nanos)
    }

    /// Equality of times.
    pub fn same_as(&self, other: &ClockTime) -> (r: bool)
        ensures
            r == (*self == *other),
    {
        self.secs == other.secs && self.nanos == other.nanos
    }

    /// This time plus one minute, wrapping around midnight.
    pub fn plus_one_minute(&self) -> (r: ClockTime)
        requires
            self.wf(),
        ensures
            r.wf(),
            r.nanos == self.nanos,
            r.secs == (self.secs + 60) % (SECS_PER_DAY as int),
    {
        let s = self.secs + 60;
        let secs = if s >= SECS_PER_DAY { s - SECS_PER_DAY } else { s };
        ClockTime { secs, nanos: self.nanos }
    }
}

/// A local date-time: an instant (seconds and nanoseconds since the Unix
/// epoch) together with the local weekday and local time of day it falls on.
///
/// Instants are ordered by `(timestamp, nanos)`, the same order as on the
/// underlying UTC time line.
#[derive(Debug, Clone, Copy, PartialEq, Eq, Structural)]
pub struct LocalDateTime {
    pub timestamp: i64,
    pub nanos: u32,
    pub weekday: Weekday,
    pub time: ClockTime,
}

impl LocalDateTime {
    /// Well formed when its time of day is.
    pub open spec fn wf(self) -> bool {
        self.time.wf()
    }

    /// `self` is a strictly earlier instant than `other`.
    pub open spec fn earlier(self, other: LocalDateTime) -> bool {
        self.timestamp < other.timestamp || (self.timestamp == other.timestamp && self.nanos
            < other.nanos)
    }

    /// Strictly earlier instant.
    pub fn is_before(&self, other: &LocalDateTime) -> (r: bool)
        ensures
            r == self.earlier(*other),
    {
        self.timestamp < other.timestamp || (self.timestamp == other.timestamp && self.nanos
            < other.nanos)
    }
}

/// A span of time: whole seconds plus nanoseconds (below one second).
#[derive(Debug, Clone, Copy, PartialEq, Eq, Structural)]
pub struct Span {
    pub secs: u64,
    pub nanos: u32,
}

/// A point on a monotonic clock, measured from an arbitrary origin.
#[derive(Debug, Clone, Copy, PartialEq, Eq, Structural)]
pub struct Moment {
    pub secs: u64,
    pub nanos: u32,
}

impl Span {
    /// Well formed when the nanosecond part is below one second.
    pub open spec fn wf(self) -> bool {
        self.nanos < NANOS_PER_SEC
    }

    /// Length in nanoseconds.
    pub open spec fn total(self) -> int {
        self.secs * 1_000_000_000 + self.nanos
    }

    /// The span of `secs` whole seconds.
    pub open spec fn from_secs_spec(secs: u64) -> Span {
        Span { secs, nanos: 0 }
    }

    /// A span of whole seconds.
    pub fn from_secs(secs: u64) -> (r: Span)
        ensures
            r == Span::from_secs_spec(secs),
            r.wf(),
            r.total() == secs * 1_000_000_000,
    {
        Span { secs, nanos: 0 }
    }

    /// A span of whole minutes.
    pub fn from_minutes(minutes: u32) -> (r: Span)
        ensures
            r.wf(),
            r.total() == minutes * 60 * 1_000_000_000,
    {
        Span { secs: minutes as u64 * 60, nanos: 0 }
    }

    /// Strictly shorter.
    pub fn is_shorter_than(&self, other: &Span) -> (r: bool)
        ensures
            r == (self.secs < other.secs || (self.secs == other.secs && self.nanos
                < other.nanos)),
            self.wf() && other.wf() ==> (r == (self.total() < other.total())),
    {
        self.secs < other.secs || (self.secs == other.secs && self.nanos < other.nanos)
    }
}

impl Moment {
    /// Well formed when the nanosecond part is below one second.
    pub open spec fn wf(self) -> bool {
        self.nanos < NANOS_PER_SEC
    }

    /// Position in nanoseconds since the clock's origin.
    pub open spec fn total(self) -> int {
        self.secs * 1_000_000_000 + self.nanos
    }

    /// The moment `secs` seconds after the origin.
    pub fn from_secs(secs: u64) -> (r: Moment)
        ensures
            r.wf(),
            r.total() == secs * 1_000_000_000,
    {
        Moment { secs, nanos: 0 }
    }

    /// Time elapsed from `earlier` to `self`; zero when `earlier` is not
    /// before `self`.
    pub fn duration_since(&self, earlier: &Moment) -> (r: Span)
        requires
            self.wf(),
            earlier.wf(),
        ensures
            r.wf(),
            r.total() == if self.total() >= earlier.total() {
                self.total() - earlier.total()
            } else {
                0
            },
    {
        if self.secs > earlier.secs || (self.secs == earlier.secs && self.nanos >= earlier.nanos) {
            if self.nanos >= earlier.nanos {
                Span { secs: self.secs - earlier.secs, nanos: self.nanos - earlier.nanos }
            } else {
                Span {
                    secs: self.secs - earlier.secs - 1,
                    nanos: self.nanos + NANOS_PER_SEC - earlier.nanos,
                }
            }
        } else {
            Span { secs: 0, nanos: 0 }
        }
    }
}

/// A number in decimal with at least two digits (zero-padded).
pub open spec fn two_digits(n: nat) -> Seq<char> {
    if n < 10 {
        seq!['0'] + decimal(n)
    } else {
        decimal(n)
    }
}

/// `HH:MM` rendering of a time of day.
pub open spec fn hh_mm(t: ClockTime) -> Seq<char> {
    two_digits(t.hour_of() as nat) + seq![':'] + two_digits(t.minute_of() as nat)
}

/// Append `n` in decimal with at least two digits.
pub fn push_two_digits(out: &mut Vec<char>, n: u32)
    ensures
        final(out)@ == old(out)@ + two_digits(n as nat),
{
    if n < 10 {
        out.push('0');
    }
    push_decimal(out, n as u64);
    assert(final(out)@ =~= old(out)@ + two_digits(n as nat));
}

impl ClockTime {
    /// `HH:MM` rendering of this time of day.
    pub fn format_hh_mm(&self) -> (r: Vec<char>)
        ensures
            r@ == hh_mm(*self),
    {
        let mut r: Vec<char> = Vec::new();
        let h = self.secs / 3600;
        let m = (self.secs % 3600) / 60;
        push_two_digits(&mut r, h);
        r.push(':');
        push_two_digits(&mut r, m);
        assert(r@ =~= hh_mm(*self));
        r
    }
}


/// Declares chrono's parse error so it can be carried through verified code.
#[verifier::external_type_specification]
#[verifier::external_body]
pub struct ExChronoParseError(chrono::format::ParseError);

/// Minutes since midnight that chrono's `NaiveTime::parse_from_str(s, "%H:%M")`
/// reads from `s`, or `None` when it rejects `s`.
pub uninterp spec fn chrono_hh_mm(s: Seq<char>) -> Option<u32>;

/// Calls chrono's `NaiveTime::parse_from_str(s, "%H:%M")` and converts the
/// time it returns. Claimed: it succeeds exactly when `chrono_hh_mm(s)` is
/// some number of minutes; that number is below 24 * 60 (chrono checks hour
/// 0..=23 and minute 0..=59) and the time carries no seconds (chrono assumes
/// zero for a missing seconds field).
#[verifier::external_body]
pub(crate) fn parse_hh_mm(s: &str) -> (r: Result<ClockTime, chrono::format::ParseError>)
    ensures
        r is Ok <==> chrono_hh_mm(s@) is Some,
        r matches Ok(t) ==> {
            &&& chrono_hh_mm(s@)->0 < 1440
            &&& t.secs == chrono_hh_mm(s@)->0 * 60
            &&& t.nanos == 0
        },
{
    match chrono::NaiveTime::parse_from_str(s, "%H:%M") {
        Ok(t) => Ok(ClockTime { secs: t.num_seconds_from_midnight(), nanos: t.nanosecond() }),
        Err(e) => Err(e),
    }
}

} // verus!
