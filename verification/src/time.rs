//! Points in time, as seconds and nanoseconds since the Unix epoch.

use chrono::{DateTime, Duration, Utc};
use vstd::prelude::*;

verus! {

/// The last second that chrono can represent.
pub const LAST_SECOND: i64 = 8_210_266_876_799;

/// A point in time in UTC.
#[derive(Debug, Clone, Copy, PartialEq, Eq, Structural)]
pub struct Timestamp {
    /// Seconds since 1970-01-01T00:00:00Z.
    pub secs: i64,
    /// Nanoseconds since the last whole second; a leap second has a thousand million and more.
    pub nanos: u32,
}

/// Whether `now` is not before `limit`.
pub open spec fn reaches(now: Timestamp, limit: Timestamp) -> bool {
    now.secs > limit.secs || now.secs == limit.secs && now.nanos >= limit.nanos
}

/// Whether `t` is a time that a clock shows: from 1970 on, within chrono's range, and no leap
/// second.
pub open spec fn is_clock_time(t: Timestamp) -> bool {
    0 <= t.secs <= LAST_SECOND && t.nanos < 1_000_000_000
}

/// `t` so many seconds later.
pub open spec fn later(t: Timestamp, secs: int) -> Timestamp {
    Timestamp { secs: (t.secs + secs) as i64, nanos: t.nanos }
}

/// The time that an RFC 3339 text names, as `DateTime::parse_from_rfc3339` reads it.
pub uninterp spec fn rfc3339_time(text: Seq<char>) -> Option<Timestamp>;

/// Calls `Utc::now`. A time before 1970 or beyond chrono's range makes that call panic; what it
/// returns lies between them and is no leap second.
#[verifier::external_body]
pub(crate) fn utc_now() -> (now: Timestamp)
    ensures
        is_clock_time(now),
{
    let now = Utc::now();
    Timestamp { secs: now.timestamp(), nanos: now.timestamp_subsec_nanos() }
}

/// Whether `t` is a reading of the machine's clock: a time that a call of `Utc::now` gave.
pub closed spec fn read_off_clock(t: Timestamp) -> bool {
    call_ensures(utc_now, (), t)
}

/// Reads the machine's clock.
pub(crate) fn read_clock() -> (now: Timestamp)
    ensures
        read_off_clock(now),
        is_clock_time(now),
{
    call_clock(utc_now)
}

fn call_clock<F: Fn() -> Timestamp>(clock: F) -> (now: Timestamp)
    requires
        call_requires(clock, ()),
    ensures
        call_ensures(clock, (), now),
{
    clock()
}

/// Adds `Duration::hours(hours)` with the `+` of chrono's `DateTime`, which moves the seconds on
/// and keeps the nanoseconds.
#[verifier::external_body]
pub(crate) fn add_hours(t: Timestamp, hours: i64) -> (res: Timestamp)
    requires
        is_clock_time(t),
        0 <= hours,
        t.secs + hours * 3600 <= LAST_SECOND,
    ensures
        res == later(t, hours * 3600),
{
    let sum = DateTime::from_timestamp(t.secs, t.nanos).unwrap() + Duration::hours(hours);
    Timestamp { secs: sum.timestamp(), nanos: sum.timestamp_subsec_nanos() }
}

/// Adds `Duration::days(days)` with the `+` of chrono's `DateTime`, which moves the seconds on
/// and keeps the nanoseconds.
#[verifier::external_body]
pub(crate) fn add_days(t: Timestamp, days: i64) -> (res: Timestamp)
    requires
        is_clock_time(t),
        0 <= days,
        t.secs + days * 86_400 <= LAST_SECOND,
    ensures
        res == later(t, days * 86_400),
{
    let sum = DateTime::from_timestamp(t.secs, t.nanos).unwrap() + Duration::days(days);
    Timestamp { secs: sum.timestamp(), nanos: sum.timestamp_subsec_nanos() }
}

/// Calls `DateTime::parse_from_rfc3339` and converts what it reads to UTC. The result depends on
/// the text alone, and is named `rfc3339_time`; the notation is not repeated here.
#[verifier::external_body]
pub(crate) fn parse_rfc3339(text: &str) -> (res: Option<Timestamp>)
    ensures
        res == rfc3339_time(text@),
{
    let time = DateTime::parse_from_rfc3339(text).ok()?.with_timezone(&Utc);
    Some(Timestamp { secs: time.timestamp(), nanos: time.timestamp_subsec_nanos() })
}

impl Timestamp {
    /// Whether this time is not before `limit`.
    pub fn has_reached(self, limit: Timestamp) -> (res: bool)
        ensures
            res == reaches(self, limit),
    {
        self.secs > limit.secs || (self.secs == limit.secs && self.nanos >= limit.nanos)
    }
}

/// Times are in the order of their seconds, and within a second of their nanoseconds.
pub proof fn law_times_are_ordered(now: Timestamp, limit: Timestamp)
    ensures
        reaches(now, limit) <==> now.secs * 0x1_0000_0000 + now.nanos >= limit.secs * 0x1_0000_0000
            + limit.nanos,
{
}

/// A time so many seconds later differs in its seconds alone, and by that many.
pub proof fn law_later_moves_seconds(t: Timestamp, secs: int)
    requires
        i64::MIN <= t.secs + secs <= i64::MAX,
    ensures
        later(t, secs).secs - t.secs == secs,
        later(t, secs).nanos == t.nanos,
{
}

/// What is read off the clock is a time that a clock shows.
pub proof fn law_readings_are_clock_times(t: Timestamp)
    requires
        read_off_clock(t),
    ensures
        is_clock_time(t),
{
}


/// A reading of the machine's clock is what a call of `Utc::now` gave, as it gave it.
proof fn law_reading_is_what_the_clock_gave(t: Timestamp)
    ensures
        read_off_clock(t) <==> call_ensures(utc_now, (), t),
{
}


} // verus!
