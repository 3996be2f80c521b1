//! Points in time as plain values, and the few calendar operations that the
//! services need, each made through `chrono`.
use chrono::{Datelike, SubsecRound};
use vstd::prelude::*;

verus! {

/// Smallest number of seconds since the Unix epoch that `chrono` represents
/// (January 1st of year -262143, UTC).
pub const MIN_TIMESTAMP_SECS: i64 = -8334601315200i64;

/// Largest number of seconds since the Unix epoch that `chrono` represents
/// (December 31st of year 262142, 23:59:59 UTC).
pub const MAX_TIMESTAMP_SECS: i64 = 8210266876799i64;

/// Number of nanoseconds in one second.
pub const NANOS_PER_SEC: u32 = 1_000_000_000u32;

/// A date-time with a fixed UTC offset: `secs` whole seconds and `nanos`
/// nanoseconds after the Unix epoch (UTC), shown at `offset` seconds east of UTC.
/// As in `chrono`, a leap second is the last second of a minute with `nanos` from
/// one to two billion.
#[derive(Clone, Copy, Debug, PartialEq, Eq)]
pub struct Timestamp {
    pub secs: i64,
    pub nanos: u32,
    pub offset: i32,
}

impl Timestamp {
    /// The value is a date-time that `chrono` can hold, with an offset of less
    /// than one day: a fraction below one second, or a leap second at the end of
    /// a minute.
    pub open spec fn wf(self) -> bool {
        &&& MIN_TIMESTAMP_SECS <= self.secs <= MAX_TIMESTAMP_SECS
        &&& self.nanos < 2 * NANOS_PER_SEC
        &&& self.nanos >= NANOS_PER_SEC ==> (self.secs as int) % 60 == 59
        &&& -86_400 < self.offset < 86_400
    }

    /// The value lies in a leap second.
    pub open spec fn is_leap(self) -> bool {
        self.nanos >= NANOS_PER_SEC
    }

    /// The second of its UTC day, from 0 to 86 399.
    pub open spec fn second_of_day(self) -> int {
        (self.secs as int) % 86_400
    }

    /// The same second and offset, with the fraction of a second dropped; a leap
    /// second stays the leap second.
    pub open spec fn truncated(self) -> Timestamp {
        Timestamp {
            secs: self.secs,
            nanos: if self.is_leap() { NANOS_PER_SEC } else { 0 },
            offset: self.offset,
        }
    }
}

/// A value that reading the clock can give: a well-formed UTC date-time at or
/// after the Unix epoch, outside any leap second.
pub open spec fn is_clock_reading(t: Timestamp) -> bool {
    &&& t.wf()
    &&& !t.is_leap()
    &&& t.offset == 0
    &&& t.secs >= 0
}

/// Whole seconds in a span of `nanos` nanoseconds, rounded toward zero.
pub open spec fn whole_seconds_toward_zero(nanos: int) -> int {
    if nanos >= 0 {
        nanos / 1_000_000_000
    } else {
        -((-nanos) / 1_000_000_000)
    }
}

/// The second that `chrono` adds to the difference of two date-times for a leap
/// second crossed: one when `start` is a leap second and `end` lies at a later
/// second of its day, minus one when `end` is a leap second and `start` lies at a
/// later second of its day, zero otherwise.
pub open spec fn leap_adjustment(end: Timestamp, start: Timestamp) -> int {
    if end.second_of_day() > start.second_of_day() && start.is_leap() {
        1
    } else if end.second_of_day() < start.second_of_day() && end.is_leap() {
        -1
    } else {
        0
    }
}

/// Nanoseconds from `start` to `end` as `chrono` counts them (`end - start`).
pub open spec fn nanos_between(end: Timestamp, start: Timestamp) -> int {
    (end.secs - start.secs + leap_adjustment(end, start)) * 1_000_000_000 + end.nanos - start.nanos
}

/// Whole seconds from `start` to `end`, rounded toward zero.
pub open spec fn seconds_between_spec(end: Timestamp, start: Timestamp) -> int {
    whole_seconds_toward_zero(nanos_between(end, start))
}

/// A span of a whole number of seconds holds exactly that many whole seconds.
pub proof fn lemma_whole_seconds_of_whole_span(k: int)
    ensures
        whole_seconds_toward_zero(k * 1_000_000_000) == k,
{
    if k >= 0 {
        assert((k * 1_000_000_000) / 1_000_000_000 == k) by (nonlinear_arith);
    } else {
        assert(-(k * 1_000_000_000) == (-k) * 1_000_000_000) by (nonlinear_arith);
        assert(((-k) * 1_000_000_000) / 1_000_000_000 == -k) by (nonlinear_arith);
    }
}

/// Between two date-times without fractions of a second, the whole seconds are
/// the difference of their seconds.
pub proof fn lemma_seconds_between_truncated(end: Timestamp, start: Timestamp)
    requires
        end.nanos == 0,
        start.nanos == 0,
    ensures
        seconds_between_spec(end, start) == end.secs - start.secs,
{
    assert(leap_adjustment(end, start) == 0);
    assert(nanos_between(end, start) == (end.secs - start.secs) * 1_000_000_000);
    lemma_whole_seconds_of_whole_span(end.secs - start.secs);
}

/// The current time in UTC, read through `chrono::Utc::now` and converted with
/// `From<DateTime<Utc>> for DateTime<FixedOffset>`.
///
/// Claimed: the result has offset 0, lies at or after the Unix epoch, has a
/// fraction below one second (no leap second) and lies in `chrono`'s range (`Utc::now` builds it with
/// `DateTime::from_timestamp(..).unwrap()` from a `SystemTime` duration). Which
/// instant comes back is not stated: it depends on the clock.
#[verifier::external_body]
pub(crate) fn current_time() -> (r: Timestamp)
    ensures
        is_clock_reading(r),
{
    let now: chrono::DateTime<chrono::FixedOffset> = chrono::Utc::now().into();
    Timestamp {
        secs: now.timestamp(),
        nanos: now.timestamp_subsec_nanos(),
        offset: now.offset().local_minus_utc(),
    }
}

/// `chrono::SubsecRound::trunc_subsecs(0)` on a `DateTime<FixedOffset>` built from
/// `t`.
///
/// Claimed: the result keeps the second and the offset and has no fraction left;
/// `trunc_subsecs` subtracts `nanosecond() % 1_000_000_000` nanoseconds. Inside a
/// leap second, `NaiveTime::overflowing_add_signed` keeps the value in the leap
/// second, so the result is its start (`nanos` one billion).
#[verifier::external_body]
pub(crate) fn trunc_subsecs(t: Timestamp) -> (r: Timestamp)
    requires
        t.wf(),
    ensures
        r == t.truncated(),
{
    let offset = chrono::FixedOffset::east_opt(t.offset).unwrap();
    let dt = chrono::DateTime::from_timestamp(t.secs, t.nanos).unwrap().with_timezone(&offset);
    let r = dt.trunc_subsecs(0);
    Timestamp {
        secs: r.timestamp(),
        nanos: r.timestamp_subsec_nanos(),
        offset: r.offset().local_minus_utc(),
    }
}

/// `(end - start).num_seconds()` for two `DateTime<FixedOffset>` built from `end`
/// and `start`.
///
/// Claimed: the result is `nanos_between(end, start)` in whole seconds, rounded
/// toward zero. `DateTime - DateTime` is `signed_duration_since` on the UTC
/// values: the difference of the dates in days, plus that of the seconds of the
/// day with `NaiveTime::signed_duration_since`'s correction for a leap second
/// (`leap_adjustment`), plus that of the fractions; `TimeDelta::num_seconds`
/// rounds toward zero.
#[verifier::external_body]
pub(crate) fn seconds_between(end: Timestamp, start: Timestamp) -> (r: i64)
    requires
        end.wf(),
        start.wf(),
    ensures
        r == seconds_between_spec(end, start),
{
    let end_offset = chrono::FixedOffset::east_opt(end.offset).unwrap();
    let start_offset = chrono::FixedOffset::east_opt(start.offset).unwrap();
    let e = chrono::DateTime::from_timestamp(end.secs, end.nanos).unwrap().with_timezone(&end_offset);
    let s = chrono::DateTime::from_timestamp(start.secs, start.nanos).unwrap().with_timezone(&start_offset);
    (e - s).num_seconds()
}

/// Days from January 1st of year 1 (day 1) to the UTC date of `t`.
pub open spec fn utc_date_of(t: Timestamp) -> int {
    t.secs / 86_400 + 719_163
}

/// The UTC date of `t`, through `DateTime::<Utc>::date_naive` and
/// `Datelike::num_days_from_ce`.
///
/// Claimed: the day number of the date, counted from January 1st of year 1 as
/// day 1; `chrono` builds the date from `secs.div_euclid(86_400) + 719_163`.
#[verifier::external_body]
pub(crate) fn utc_date(t: Timestamp) -> (r: i32)
    requires
        t.wf(),
    ensures
        r == utc_date_of(t),
{
    chrono::DateTime::from_timestamp(t.secs, t.nanos).unwrap().date_naive().num_days_from_ce()
}

/// Largest number of whole seconds that `chrono::TimeDelta::seconds` accepts.
pub const MAX_DELTA_SECS: i64 = 9_223_372_036_854_775i64;

/// The second that lies `seconds` seconds after `t` (before it when negative), as
/// `chrono` moves a date-time: outside a leap second, `seconds` is added to the
/// second; a leap second is first left for the second after it (when moving
/// forward) or for the second it ends (when moving back), keeping the fraction.
pub open spec fn seconds_later_secs(t: Timestamp, seconds: int) -> int {
    if t.is_leap() && seconds < 0 {
        t.secs + 1 + seconds
    } else {
        t.secs + seconds
    }
}

/// `t` moved by `seconds` seconds: see `seconds_later_secs`; the offset stays,
/// and so does the fraction, but for the leap second itself when one is left.
pub open spec fn seconds_later(t: Timestamp, seconds: int) -> Timestamp {
    if seconds == 0 {
        t
    } else {
        Timestamp {
            secs: seconds_later_secs(t, seconds) as i64,
            nanos: if t.is_leap() { (t.nanos - NANOS_PER_SEC) as u32 } else { t.nanos },
            offset: t.offset,
        }
    }
}

/// `t + TimeDelta::seconds(seconds)` on the `DateTime<FixedOffset>` built from
/// `t`.
///
/// Claimed: the result is `seconds_later(t, seconds)`, as
/// `NaiveTime::overflowing_add_signed` computes it for a delta of whole seconds.
/// Inputs on which `TimeDelta::seconds` or the addition panics are left out.
#[verifier::external_body]
pub(crate) fn add_seconds(t: Timestamp, seconds: i64) -> (r: Timestamp)
    requires
        t.wf(),
        -MAX_DELTA_SECS <= seconds <= MAX_DELTA_SECS,
        MIN_TIMESTAMP_SECS <= seconds_later_secs(t, seconds as int) <= MAX_TIMESTAMP_SECS,
    ensures
        r == seconds_later(t, seconds as int),
{
    let offset = chrono::FixedOffset::east_opt(t.offset).unwrap();
    let dt = chrono::DateTime::from_timestamp(t.secs, t.nanos).unwrap().with_timezone(&offset);
    let r = dt + chrono::TimeDelta::seconds(seconds);
    Timestamp {
        secs: r.timestamp(),
        nanos: r.timestamp_subsec_nanos(),
        offset: r.offset().local_minus_utc(),
    }
}

} // verus!
