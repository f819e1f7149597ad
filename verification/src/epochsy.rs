//! A minimal, leap-second-ignoring calendar over `(moment, tz)` pairs.
//!
//! `moment` is UTC seconds since the Unix epoch; `tz` is a display offset in
//! seconds that is carried along but never folded into `moment`. Additive
//! arithmetic saturates at `u64::MAX`; subtraction demands that it cannot
//! underflow.

use vstd::prelude::*;

verus! {

/// A UTC timestamp plus a display offset for whatever time zone is wanted.
#[derive(Debug, Clone, Copy, PartialEq, Eq, Structural)]
pub struct DateTime {
    /// Seconds since the Unix epoch, UTC.
    pub moment: u64,
    /// Display offset in seconds; negative offsets lie west of UTC.
    pub tz: i32,
}

/// A non-negative span of seconds between two moments.
#[derive(Debug, Clone, Copy, PartialEq, Eq, Structural)]
pub struct Interval {
    pub distance: u64,
}

/// Addition on `u64` seconds that pegs at `u64::MAX` instead of wrapping.
pub open spec fn sat_add(a: u64, b: u64) -> u64 {
    if a + b <= u64::MAX {
        (a + b) as u64
    } else {
        u64::MAX
    }
}

/// Multiplication on `u64` seconds that pegs at `u64::MAX` instead of wrapping.
pub open spec fn sat_mul(a: u64, b: u64) -> u64 {
    if a * b <= u64::MAX {
        (a * b) as u64
    } else {
        u64::MAX
    }
}

/// `h` hours, `m` minutes and `s` seconds expressed as seconds.
pub open spec fn spec_hms(h: u64, m: u64, s: u64) -> u64 {
    if h * 3600 + m * 60 + s <= u64::MAX {
        (h * 3600 + m * 60 + s) as u64
    } else {
        u64::MAX
    }
}

/// The local display value of a stamp: `moment` shifted by the carried
/// offset, clamped to zero when a negative offset would cross the epoch.
pub open spec fn display_moment(m: DateTime) -> u64 {
    if m.tz <= 0 {
        if m.moment + m.tz >= 0 {
            (m.moment + m.tz) as u64
        } else {
            0
        }
    } else {
        sat_add(m.moment, m.tz as u64)
    }
}

/// The absolute difference of two second counts.
pub open spec fn abs_diff(a: u64, b: u64) -> u64 {
    if a <= b {
        (b - a) as u64
    } else {
        (a - b) as u64
    }
}

/// Relies on `std::time::SystemTime::now` and `duration_since(UNIX_EPOCH)`:
/// the wall clock as whole seconds since the Unix epoch, or 0 when the system
/// clock reports a time before the epoch. Nothing can be promised of the
/// value itself.
#[verifier::external_body]
fn unix_now_seconds() -> u64 {
    match std::time::SystemTime::now().duration_since(std::time::UNIX_EPOCH) {
        Ok(d) => d.as_secs(),
        Err(_) => 0,
    }
}

/// The wall clock as a UTC stamp; `moment` is 0 when the clock is unreadable.
pub fn now() -> (r: DateTime)
    ensures
        r.tz == 0,
{
    DateTime { moment: unix_now_seconds(), tz: 0 }
}

/// A clock time of day expressed as seconds, with a zero offset.
pub fn hms(h: u64, m: u64, s: u64) -> (r: DateTime)
    ensures
        r.moment == spec_hms(h, m, s),
        r.tz == 0,
{
    let hh = match h.checked_mul(3600) {
        Some(v) => v,
        None => u64::MAX,
    };
    let mm = match m.checked_mul(60) {
        Some(v) => v,
        None => u64::MAX,
    };
    let a = match hh.checked_add(mm) {
        Some(v) => v,
        None => u64::MAX,
    };
    let time = match a.checked_add(s) {
        Some(v) => v,
        None => u64::MAX,
    };
    DateTime { moment: time, tz: 0 }
}

/// The same moment carrying a different display offset.
pub fn with_timezone(m: &DateTime, tz: i32) -> (r: DateTime)
    ensures
        r.moment == m.moment,
        r.tz == tz,
{
    DateTime { moment: m.moment, tz: tz }
}

/// The local display value of a stamp.
pub fn moment(m: &DateTime) -> (r: u64)
    ensures
        r == display_moment(*m),
{
    if m.tz <= 0 {
        let shift = (-(m.tz as i64)) as u64;
        if m.moment >= shift {
            m.moment - shift
        } else {
            0
        }
    } else {
        match m.moment.checked_add(m.tz as u64) {
            Some(v) => v,
            None => u64::MAX,
        }
    }
}

/// Treats `m2` as a duration added onto `m1`; the offset of `m1` is kept.
pub fn append(m1: &DateTime, m2: &DateTime) -> (r: DateTime)
    ensures
        r.moment == sat_add(m1.moment, m2.moment),
        r.tz == m1.tz,
{
    let time = match m1.moment.checked_add(m2.moment) {
        Some(v) => v,
        None => u64::MAX,
    };
    DateTime { moment: time, tz: m1.tz }
}

/// The span between two stamps, whichever of the two comes first.
pub fn diff(m1: &DateTime, m2: &DateTime) -> (r: Interval)
    ensures
        r.distance == abs_diff(m1.moment, m2.moment),
{
    if m1.moment <= m2.moment {
        Interval { distance: m2.moment - m1.moment }
    } else {
        Interval { distance: m1.moment - m2.moment }
    }
}

/// A stamp moved later by an interval; the offset is kept.
pub fn add(m: &DateTime, i: &Interval) -> (r: DateTime)
    ensures
        r.moment == sat_add(m.moment, i.distance),
        r.tz == m.tz,
{
    let time = match m.moment.checked_add(i.distance) {
        Some(v) => v,
        None => u64::MAX,
    };
    DateTime { moment: time, tz: m.tz }
}

/// A stamp moved earlier by an interval; moving before the epoch is a
/// programming error and is ruled out.
pub fn sub(m: &DateTime, i: &Interval) -> (r: DateTime)
    requires
        i.distance <= m.moment,
    ensures
        r.moment == m.moment - i.distance,
        r.tz == m.tz,
{
    DateTime { moment: m.moment - i.distance, tz: m.tz }
}

/// How much later `m2` lies than `m1`, carried as a stamp with the offset of
/// `m1`; an earlier `m2` is a programming error and is ruled out.
pub fn reduce(m1: &DateTime, m2: &DateTime) -> (r: DateTime)
    requires
        m1.moment <= m2.moment,
    ensures
        r.moment == m2.moment - m1.moment,
        r.tz == m1.tz,
{
    DateTime { moment: m2.moment - m1.moment, tz: m1.tz }
}

/// `seconds` seconds after `m`.
pub fn seconds_later(m: &DateTime, seconds: u64) -> (r: DateTime)
    ensures
        r.moment == sat_add(m.moment, seconds),
        r.tz == m.tz,
{
    let time = match m.moment.checked_add(seconds) {
        Some(v) => v,
        None => u64::MAX,
    };
    DateTime { moment: time, tz: m.tz }
}

/// `minutes` minutes after `m`.
pub fn minutes_later(m: &DateTime, minutes: u64) -> (r: DateTime)
    ensures
        r.moment == sat_add(m.moment, sat_mul(minutes, 60)),
        r.tz == m.tz,
{
    let span = match minutes.checked_mul(60) {
        Some(v) => v,
        None => u64::MAX,
    };
    let time = match m.moment.checked_add(span) {
        Some(v) => v,
        None => u64::MAX,
    };
    DateTime { moment: time, tz: m.tz }
}

/// `hours` hours after `m`.
pub fn hours_later(m: &DateTime, hours: u64) -> (r: DateTime)
    ensures
        r.moment == sat_add(m.moment, sat_mul(hours, 3600)),
        r.tz == m.tz,
{
    let span = match hours.checked_mul(3600) {
        Some(v) => v,
        None => u64::MAX,
    };
    let time = match m.moment.checked_add(span) {
        Some(v) => v,
        None => u64::MAX,
    };
    DateTime { moment: time, tz: m.tz }
}

/// `days` days after `m`.
pub fn days_later(m: &DateTime, days: u64) -> (r: DateTime)
    ensures
        r.moment == sat_add(m.moment, sat_mul(days, 86400)),
        r.tz == m.tz,
{
    let span = match days.checked_mul(86400) {
        Some(v) => v,
        None => u64::MAX,
    };
    let time = match m.moment.checked_add(span) {
        Some(v) => v,
        None => u64::MAX,
    };
    DateTime { moment: time, tz: m.tz }
}

/// `days` days before `m`; crossing the epoch is a programming error and is
/// ruled out.
pub fn days_before(m: &DateTime, days: u64) -> (r: DateTime)
    requires
        days * 86400 <= m.moment,
    ensures
        r.moment == m.moment - days * 86400,
        r.tz == m.tz,
{
    let span = match days.checked_mul(86400) {
        Some(v) => v,
        None => u64::MAX,
    };
    DateTime { moment: m.moment - span, tz: m.tz }
}

/// The stamp rounded down to the most recent day boundary, ignoring leap
/// seconds.
pub fn floor_to_days(m: &DateTime) -> (r: DateTime)
    ensures
        r.moment == (m.moment / 86400) * 86400,
        r.tz == m.tz,
{
    DateTime { moment: (m.moment / 86400) * 86400, tz: m.tz }
}

/// Whole days of the local display value.
pub fn days(m: &DateTime) -> (r: u64)
    ensures
        r == display_moment(*m) / 86400,
{
    moment(m) / 86400
}

/// Whole hours of the local display value.
pub fn hours(m: &DateTime) -> (r: u64)
    ensures
        r == display_moment(*m) / 3600,
{
    moment(m) / 3600
}

/// Whole minutes of the local display value.
pub fn minutes(m: &DateTime) -> (r: u64)
    ensures
        r == display_moment(*m) / 60,
{
    moment(m) / 60
}

/// The most recent UTC day boundary of the wall clock.
pub fn today() -> (r: DateTime)
    ensures
        r.tz == 0,
        r.moment % 86400 == 0,
{
    let n = now();
    let r = floor_to_days(&n);
    proof {
        assert((n.moment / 86400) * 86400 % 86400 == 0) by (nonlinear_arith);
    }
    r
}

} // verus!
