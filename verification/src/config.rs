//! The configuration model the engine works from, and the daily wall-clock
//! schedule: parsing of `HH:MM:SS` clock times and computation of the next
//! start and end boundaries around a reference stamp.
//!
//! Volumes and gains are fixed-point integers in millionths of full scale
//! (see [`crate::VOLUME_SCALE`]); speaker geometry, spline control points and
//! audio file handling live with the audio backend, outside this crate.

use vstd::prelude::*;

use crate::epochsy;
use crate::epochsy::DateTime;
use chrono::Offset;

verus! {

use vstd::string::StrSliceExecFns;

/// One audio resource of a scene: its file path, the threshold window on the
/// structure curve within which it is live, its gain, and optional fade step
/// counts (500 when absent).
#[derive(Debug, Clone, PartialEq)]
pub struct SoundResource {
    pub path: String,
    /// Lower activation threshold, millionths of full scale.
    pub min_threshold: i64,
    /// Upper activation threshold, millionths of full scale.
    pub max_threshold: i64,
    /// Gain added onto the default level when the voice goes live, millionths.
    pub gain: i64,
    pub fade_in_steps: Option<u32>,
    pub fade_out_steps: Option<u32>,
}

/// One scene: a named bag of resources with an on-air lifetime and the period
/// of its structure curve.
#[derive(Debug, Clone, PartialEq)]
pub struct Scene {
    pub name: String,
    /// On-air lifetime of the scene in the rotation, milliseconds.
    pub duration_ms: i64,
    /// Period of the structure curve, milliseconds.
    pub cycle_duration_ms: u64,
    pub resources: Vec<SoundResource>,
}

/// A host and port pair.
#[derive(Debug, Clone, PartialEq)]
pub struct Address {
    pub host: String,
    pub port: u32,
}

/// A daily on-air window, both bounds as `HH:MM:SS` clock times. The end may
/// be numerically less than the start (an overnight window).
#[derive(Debug, Clone, PartialEq)]
pub struct DailySchedule {
    pub start: String,
    pub end: String,
}

/// The top-level configuration as the engine sees it.
#[derive(Debug, Clone, PartialEq)]
pub struct Soundscape {
    pub listen_addr: Address,
    pub subscribers: Vec<Address>,
    /// Scene file paths; rotation order.
    pub scenes: Vec<String>,
    /// Tick period in milliseconds.
    pub metro_step_ms: u32,
    /// Initial capacity hint for voice vectors.
    pub voice_limit: usize,
    /// Base volume applied to live voices, millionths of full scale.
    pub default_level: i64,
    pub background_scene: Option<String>,
    pub ignore_extra_speakers: Option<bool>,
    pub is_fallback_slave: Option<bool>,
    pub daily_schedule: Option<DailySchedule>,
}

/// Whether the node was configured as the fallback slave; absent means no.
pub open spec fn spec_is_fallback_slave(config: Soundscape) -> bool {
    match config.is_fallback_slave {
        Some(is_slave) => is_slave,
        None => false,
    }
}

pub fn is_fallback_slave(config: &Soundscape) -> (r: bool)
    ensures
        r == spec_is_fallback_slave(*config),
{
    match config.is_fallback_slave {
        Some(is_slave) => is_slave,
        None => false,
    }
}

/// Whether speaker positions beyond the device's channel count are dropped;
/// absent means no.
pub open spec fn spec_ignore_extra_speakers(config: Soundscape) -> bool {
    match config.ignore_extra_speakers {
        Some(is_ignored) => is_ignored,
        None => false,
    }
}

pub fn ignore_extra_speakers(config: &Soundscape) -> (r: bool)
    ensures
        r == spec_ignore_extra_speakers(*config),
{
    match config.ignore_extra_speakers {
        Some(is_ignored) => is_ignored,
        None => false,
    }
}

/// An ASCII decimal digit, by code point.
pub open spec fn is_digit_char(c: char) -> bool {
    48 <= c as u32 && c as u32 <= 57
}

/// The numeric value of an ASCII decimal digit.
pub open spec fn digit_of(c: char) -> u64 {
    ((c as u32) - 48) as u64
}

/// A clock-time string parses exactly when it is eight characters of the
/// shape `HH:MM:SS` with two-digit fields and `HH < 24`, `MM < 60`, `SS < 60`.
pub open spec fn spec_parse_hms(s: Seq<char>) -> Option<(u64, u64, u64)> {
    if s.len() == 8 && s[2] as u32 == 58 && s[5] as u32 == 58 && is_digit_char(s[0])
        && is_digit_char(s[1]) && is_digit_char(s[3]) && is_digit_char(s[4]) && is_digit_char(
        s[6],
    ) && is_digit_char(s[7]) {
        let h = (digit_of(s[0]) * 10 + digit_of(s[1])) as u64;
        let m = (digit_of(s[3]) * 10 + digit_of(s[4])) as u64;
        let sec = (digit_of(s[6]) * 10 + digit_of(s[7])) as u64;
        if h < 24 && m < 60 && sec < 60 {
            Some((h, m, sec))
        } else {
            None
        }
    } else {
        None
    }
}

/// Reads one ASCII decimal digit.
fn digit(c: char) -> (r: Option<u64>)
    ensures
        r is Some <==> is_digit_char(c),
        r is Some ==> r == Some(digit_of(c)),
{
    let v = c as u32;
    if 48 <= v && v <= 57 {
        Some((v - 48) as u64)
    } else {
        None
    }
}

/// Parses a `HH:MM:SS` clock time; `None` on any other shape.
pub fn parse_hms(s: &str) -> (r: Option<(u64, u64, u64)>)
    ensures
        r == spec_parse_hms(s@),
{
    if s.unicode_len() != 8 {
        return None;
    }
    if s.get_char(2) as u32 != 58 || s.get_char(5) as u32 != 58 {
        return None;
    }
    let d0 = digit(s.get_char(0));
    let d1 = digit(s.get_char(1));
    let d3 = digit(s.get_char(3));
    let d4 = digit(s.get_char(4));
    let d6 = digit(s.get_char(6));
    let d7 = digit(s.get_char(7));
    match (d0, d1, d3, d4, d6, d7) {
        (Some(h1), Some(h2), Some(m1), Some(m2), Some(s1), Some(s2)) => {
            let h = h1 * 10 + h2;
            let m = m1 * 10 + m2;
            let sec = s1 * 10 + s2;
            if h < 24 && m < 60 && sec < 60 {
                Some((h, m, sec))
            } else {
                None
            }
        },
        _ => None,
    }
}

/// Both clock times of the configured schedule parse; vacuous when no
/// schedule is configured.
pub open spec fn schedule_valid(config: Soundscape) -> bool {
    match config.daily_schedule {
        Some(schedule) => spec_parse_hms(schedule.start@) is Some && spec_parse_hms(schedule.end@)
            is Some,
        None => true,
    }
}

/// The clock time of day of `from`, as displayed, re-expressed in seconds.
pub open spec fn spec_from_clock(from: DateTime) -> u64 {
    epochsy::spec_hms(
        epochsy::display_moment(from) / 3600 % 24,
        epochsy::display_moment(from) / 60 % 60,
        epochsy::display_moment(from) % 60,
    )
}

/// The next stamp at or after the day of `from` whose clock time of day is
/// `clock_time`: today when `from`'s own clock time has not yet passed it,
/// else tomorrow. The result carries a zero offset.
pub open spec fn spec_next_epoch(from: DateTime, clock_time: DateTime) -> DateTime {
    let day = ((from.moment / 86400) * 86400) as u64;
    let base = if spec_from_clock(from) <= clock_time.moment {
        day
    } else {
        epochsy::sat_add(day, 86400)
    };
    DateTime { moment: epochsy::sat_add(base, clock_time.moment), tz: 0 }
}

/// Converts a clock time of day to its next occurrence in epoch seconds
/// around the reference `from`.
pub fn next_epoch(from: &DateTime, clock_time: &DateTime) -> (r: DateTime)
    ensures
        r == spec_next_epoch(*from, *clock_time),
{
    let cur_days = epochsy::floor_to_days(from);
    let from_clock_time = epochsy::hms(
        epochsy::hours(from) % 24,
        epochsy::minutes(from) % 60,
        epochsy::moment(from) % 60,
    );
    // force the resulting time to lie at or after `from`'s own clock time
    let time = if from_clock_time.moment <= clock_time.moment {
        epochsy::append(&cur_days, clock_time)
    } else {
        epochsy::append(&epochsy::days_later(&cur_days, 1), clock_time)
    };
    epochsy::with_timezone(&time, 0)
}

/// The next start boundary of the configured schedule after `from`, or the
/// zero-clock sentinel when no schedule is configured.
pub open spec fn spec_next_start_time(config: Soundscape, from: DateTime) -> DateTime {
    match config.daily_schedule {
        Some(schedule) => match spec_parse_hms(schedule.start@) {
            Some((h, m, s)) => spec_next_epoch(
                from,
                DateTime { moment: epochsy::spec_hms(h, m, s), tz: 0 },
            ),
            None => DateTime { moment: 0, tz: 0 },
        },
        None => DateTime { moment: 0, tz: 0 },
    }
}

/// Returns the next epoch at which the schedule says to start; the zero
/// sentinel stamp when no schedule is configured.
pub fn next_start_time(config: &Soundscape, from: &DateTime) -> (r: DateTime)
    requires
        schedule_valid(*config),
    ensures
        r == spec_next_start_time(*config, *from),
{
    match &config.daily_schedule {
        Some(schedule) => {
            let parsed = parse_hms(schedule.start.as_str());
            match parsed {
                Some((h, m, s)) => {
                    let clock = epochsy::hms(h, m, s);
                    next_epoch(from, &clock)
                },
                None => DateTime { moment: 0, tz: 0 },
            }
        },
        None => epochsy::hms(0, 0, 0),
    }
}

/// The next end boundary of the configured schedule after `from`; `None`
/// when no schedule is configured.
pub open spec fn spec_next_end_time(config: Soundscape, from: DateTime) -> Option<DateTime> {
    match config.daily_schedule {
        Some(schedule) => match spec_parse_hms(schedule.end@) {
            Some((h, m, s)) => Some(
                spec_next_epoch(from, DateTime { moment: epochsy::spec_hms(h, m, s), tz: 0 }),
            ),
            None => Some(DateTime { moment: 0, tz: 0 }),
        },
        None => None,
    }
}

/// Returns the next epoch at which the schedule says to end; `None` when no
/// schedule is configured.
pub fn next_end_time(config: &Soundscape, from: &DateTime) -> (r: Option<DateTime>)
    requires
        schedule_valid(*config),
    ensures
        r == spec_next_end_time(*config, *from),
{
    match &config.daily_schedule {
        Some(schedule) => {
            let parsed = parse_hms(schedule.end.as_str());
            match parsed {
                Some((h, m, s)) => {
                    let clock = epochsy::hms(h, m, s);
                    Some(next_epoch(from, &clock))
                },
                None => Some(DateTime { moment: 0, tz: 0 }),
            }
        },
        None => None,
    }
}

/// The closed interval test on raw UTC moments.
pub open spec fn spec_is_in_schedule(now: DateTime, start: DateTime, end: DateTime) -> bool {
    start.moment <= now.moment && now.moment <= end.moment
}

/// Whether `now` lies within the closed window from `start` to `end`.
pub fn is_in_schedule(now: &DateTime, start: &DateTime, end: &DateTime) -> (r: bool)
    ensures
        r == spec_is_in_schedule(*now, *start, *end),
{
    start.moment <= now.moment && now.moment <= end.moment
}

/// Whether `now` lies in the window that the schedule, re-derived from the
/// given day boundary, spans: the start is taken after `today`, the end after
/// that start, and the displayed value of `now` is tested against both. No
/// schedule means always live.
pub open spec fn spec_is_in_schedule_now(
    config: Soundscape,
    now: DateTime,
    today: DateTime,
) -> bool {
    match spec_next_end_time(config, spec_next_start_time(config, today)) {
        Some(end) => {
            let start = spec_next_start_time(config, today);
            epochsy::display_moment(now) >= epochsy::display_moment(start)
                && epochsy::display_moment(now) <= epochsy::display_moment(end)
        },
        None => true,
    }
}

/// The schedule test against an explicit day boundary, for callers that
/// carry their own notion of today.
pub fn is_in_schedule_from(config: &Soundscape, now: &DateTime, today: &DateTime) -> (r: bool)
    requires
        schedule_valid(*config),
    ensures
        r == spec_is_in_schedule_now(*config, *now, *today),
{
    let start = next_start_time(config, today);
    let end = match next_end_time(config, &start) {
        Some(end) => end,
        // no schedule configured means always live
        None => {
            return true;
        },
    };
    epochsy::moment(now) >= epochsy::moment(&start) && epochsy::moment(now) <= epochsy::moment(
        &end,
    )
}

/// Whether the wall clock says the installation is live right now: the
/// schedule window is re-derived from the local day boundary of the system
/// clock, so the result is pinned only relative to that unknown boundary.
pub fn is_in_schedule_now(config: &Soundscape, now: &DateTime) -> (r: bool)
    requires
        schedule_valid(*config),
    ensures
        exists|today: DateTime|
            today.moment % 86400 == 0 && -86400 < today.tz < 86400 && r
                == spec_is_in_schedule_now(*config, *now, today),
{
    let today = local_today();
    let r = is_in_schedule_from(config, now, &today);
    proof {
        assert(today.moment % 86400 == 0 && -86400 < today.tz < 86400 && r
            == spec_is_in_schedule_now(*config, *now, today));
    }
    r
}

/// The clock-of-day fields of a second count, recombined, give exactly the
/// seconds into the day.
proof fn lemma_clock_decomposition(d: u64)
    ensures
        (d as int / 3600 % 24) * 3600 + (d as int / 60 % 60) * 60 + d as int % 60 == d as int
            % 86400,
{
    let di = d as int;
    let k = di / 86400;
    let q = di % 86400;
    vstd::arithmetic::div_mod::lemma_fundamental_div_mod(di, 86400);
    let a = q / 3600;
    let b = q % 3600;
    vstd::arithmetic::div_mod::lemma_fundamental_div_mod(q, 3600);
    vstd::arithmetic::div_mod::lemma_fundamental_div_mod(b, 60);
    // hours: di == 3600 * (24k + a) + b
    vstd::arithmetic::div_mod::lemma_fundamental_div_mod_converse(di, 3600, 24 * k + a, b);
    vstd::arithmetic::div_mod::lemma_fundamental_div_mod_converse(24 * k + a, 24, k, a);
    // minutes: di == 60 * (1440k + 60a + b/60) + b%60
    vstd::arithmetic::div_mod::lemma_fundamental_div_mod_converse(
        di,
        60,
        1440 * k + 60 * a + b / 60,
        b % 60,
    );
    vstd::arithmetic::div_mod::lemma_fundamental_div_mod_converse(
        1440 * k + 60 * a + b / 60,
        60,
        24 * k + a,
        b / 60,
    );
    // seconds: di % 60 == b % 60 already from the minutes decomposition
    assert(di / 3600 % 24 == a);
    assert(di / 60 % 60 == b / 60);
    assert(di % 60 == b % 60);
    assert(a * 3600 + (b / 60) * 60 + b % 60 == q);
}

/// Law: the daily window is closed at both endpoints — whenever the window
/// is non-empty, both its start and its end lie within it.
pub proof fn lemma_schedule_endpoints(start: DateTime, end: DateTime)
    requires
        start.moment <= end.moment,
    ensures
        spec_is_in_schedule(start, start, end),
        spec_is_in_schedule(end, start, end),
{
}

/// Law: for a reference stamp displayed as UTC and a clock time within one
/// day, the next occurrence never lies before the reference and lies less
/// than one day after it.
pub proof fn lemma_next_epoch_bounds(from: DateTime, clock_time: DateTime)
    requires
        from.tz == 0,
        clock_time.moment < 86400,
        from.moment + 2 * 86400 <= u64::MAX,
    ensures
        spec_next_epoch(from, clock_time).moment >= from.moment,
        spec_next_epoch(from, clock_time).moment - from.moment < 86400,
{
    let di = from.moment as int;
    let day = (di / 86400) * 86400;
    let q = di % 86400;
    vstd::arithmetic::div_mod::lemma_fundamental_div_mod(di, 86400);
    vstd::arithmetic::div_mod::lemma_mod_bound(di, 86400);
    lemma_clock_decomposition(from.moment);
    assert(epochsy::display_moment(from) == from.moment);
    assert(spec_from_clock(from) == q);
}

/// Relies on `chrono::Local::now().offset().fix().local_minus_utc()`: the
/// machine's UTC offset in seconds. A `chrono::FixedOffset` always lies
/// strictly between minus and plus one day.
#[verifier::external_body]
pub fn local_time_zone() -> (r: i32)
    ensures
        -86400 < r < 86400,
{
    chrono::Local::now().offset().fix().local_minus_utc()
}

/// The given UTC stamp carrying the machine's display offset.
pub fn to_localtime(utc: &DateTime) -> (r: DateTime)
    ensures
        r.moment == utc.moment,
        -86400 < r.tz < 86400,
{
    let tz = local_time_zone();
    epochsy::with_timezone(utc, tz)
}

/// The wall clock carrying the machine's display offset.
pub fn localtime() -> (r: DateTime)
    ensures
        -86400 < r.tz < 86400,
{
    let n = epochsy::now();
    to_localtime(&n)
}

/// The given local stamp with its display offset dropped.
pub fn from_localtime(local: &DateTime) -> (r: DateTime)
    ensures
        r.moment == local.moment,
        r.tz == 0,
{
    epochsy::with_timezone(local, 0)
}

/// The most recent UTC day boundary, carrying the machine's display offset.
pub fn local_today() -> (r: DateTime)
    ensures
        r.moment % 86400 == 0,
        -86400 < r.tz < 86400,
{
    let t = epochsy::today();
    to_localtime(&t)
}

} // verus!
