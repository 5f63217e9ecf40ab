//! Instants on the UTC time line and the order between them.

use vstd::prelude::*;

verus! {

/// Nanoseconds in one second.
pub const NANOS_PER_SECOND: u32 = 1_000_000_000;

/// Seconds in one day.
pub const SECONDS_PER_DAY: i64 = 86_400;

/// 0000-01-01T00:00:00Z, the first second of the four-digit calendar years.
pub const CALENDAR_MIN_SECS: i64 = -62_167_219_200;

/// 9999-12-31T23:59:59Z, the last second of the four-digit calendar years.
pub const CALENDAR_MAX_SECS: i64 = 253_402_300_799;

/// An instant on the UTC time line: whole seconds since 1970-01-01T00:00:00Z
/// (negative before it) and the nanoseconds past that second.
///
/// Instants are ordered by `secs`, then by `nanos`.
#[derive(Debug, Clone, Copy, PartialEq, Eq, Structural, PartialOrd, Ord, Hash)]
pub struct Timestamp {
    pub secs: i64,
    pub nanos: u32,
}

impl Timestamp {
    /// `self` is strictly earlier than `other`.
    pub open spec fn before(self, other: Timestamp) -> bool {
        self.secs < other.secs || (self.secs == other.secs && self.nanos < other.nanos)
    }

    /// `self` is `other` or earlier.
    pub open spec fn at_or_before(self, other: Timestamp) -> bool {
        self.before(other) || self == other
    }

    /// Nanoseconds from `self` to `later`; negative when `later` is the earlier one.
    pub open spec fn nanos_until(self, later: Timestamp) -> int {
        (later.secs - self.secs) * 1_000_000_000 + (later.nanos - self.nanos)
    }

    /// `self` lies in the years 0000 to 9999 and is no leap second.
    pub open spec fn in_calendar(self) -> bool {
        CALENDAR_MIN_SECS <= self.secs <= CALENDAR_MAX_SECS && self.nanos < NANOS_PER_SECOND
    }

    /// Whether `self` lies in the years 0000 to 9999 and is no leap second.
    pub fn is_in_calendar(&self) -> (r: bool)
        ensures
            r == self.in_calendar(),
    {
        CALENDAR_MIN_SECS <= self.secs && self.secs <= CALENDAR_MAX_SECS && self.nanos
            < NANOS_PER_SECOND
    }

    /// The instant `secs` seconds and `nanos` nanoseconds after the epoch.
    pub fn new(secs: i64, nanos: u32) -> (t: Timestamp)
        ensures
            t == (Timestamp { secs, nanos }),
    {
        Timestamp { secs, nanos }
    }

    /// Whether `self` is strictly earlier than `other`.
    pub fn is_before(&self, other: &Timestamp) -> (r: bool)
        ensures
            r == self.before(*other),
    {
        self.secs < other.secs || (self.secs == other.secs && self.nanos < other.nanos)
    }

    /// Whether `self` is `other` or earlier.
    pub fn is_at_or_before(&self, other: &Timestamp) -> (r: bool)
        ensures
            r == self.at_or_before(*other),
    {
        self.secs < other.secs || (self.secs == other.secs && self.nanos <= other.nanos)
    }
}

/// The earlier of two optional instants, where an absent one never wins.
pub open spec fn earliest(a: Option<Timestamp>, b: Option<Timestamp>) -> Option<Timestamp> {
    match (a, b) {
        (Some(x), Some(y)) => if y.before(x) { Some(y) } else { Some(x) },
        (Some(x), None) => Some(x),
        (None, y) => y,
    }
}

/// Computes `earliest`.
pub fn earliest_of(a: Option<Timestamp>, b: Option<Timestamp>) -> (r: Option<Timestamp>)
    ensures
        r == earliest(a, b),
{
    match (a, b) {
        (Some(x), Some(y)) => if y.is_before(&x) { Some(y) } else { Some(x) },
        (Some(x), None) => Some(x),
        (None, y) => y,
    }
}

/// Reads the system clock through `chrono::Utc::now`. Nothing is claimed of
/// the instant that comes back.
#[verifier::external_body]
pub(crate) fn current_time() -> (now: Timestamp) {
    let now = chrono::Utc::now();
    Timestamp { secs: now.timestamp(), nanos: now.timestamp_subsec_nanos() }
}

} // verus!
