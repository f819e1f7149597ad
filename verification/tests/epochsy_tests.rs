use soundscape::epochsy::{
    add, append, days, days_before, days_later, diff, floor_to_days, hms, hours, hours_later,
    minutes, minutes_later, moment, reduce, seconds_later, sub, with_timezone, DateTime, Interval,
};

#[test]
fn hms_counts_seconds() {
    assert_eq!(hms(0, 0, 0).moment, 0);
    assert_eq!(hms(1, 0, 0).moment, 3600);
    assert_eq!(hms(11, 45, 26).moment, 42326);
    assert_eq!(hms(18, 30, 0).moment, 66600);
    assert_eq!(hms(25, 31, 0).moment, 91860);
    assert_eq!(hms(0, 0, 0).tz, 0);
}

#[test]
fn append_keeps_left_timezone() {
    let a = DateTime { moment: 1000, tz: 3600 };
    let b = DateTime { moment: 234, tz: -7200 };
    let r = append(&a, &b);
    assert_eq!(r.moment, 1234);
    assert_eq!(r.tz, 3600);
}

#[test]
fn diff_is_symmetric() {
    let a = DateTime { moment: 500, tz: 0 };
    let b = DateTime { moment: 1700, tz: 0 };
    assert_eq!(diff(&a, &b), Interval { distance: 1200 });
    assert_eq!(diff(&b, &a), Interval { distance: 1200 });
    assert_eq!(diff(&a, &a), Interval { distance: 0 });
}

#[test]
fn interval_arithmetic() {
    let a = DateTime { moment: 5000, tz: 60 };
    let i = Interval { distance: 1200 };
    assert_eq!(add(&a, &i), DateTime { moment: 6200, tz: 60 });
    assert_eq!(sub(&a, &i), DateTime { moment: 3800, tz: 60 });
    let later = DateTime { moment: 8000, tz: 0 };
    assert_eq!(reduce(&a, &later), DateTime { moment: 3000, tz: 60 });
}

#[test]
fn later_helpers_scale() {
    let a = DateTime { moment: 100, tz: -60 };
    assert_eq!(seconds_later(&a, 5).moment, 105);
    assert_eq!(minutes_later(&a, 2).moment, 220);
    assert_eq!(hours_later(&a, 1).moment, 3700);
    assert_eq!(days_later(&a, 2).moment, 172900);
    assert_eq!(days_later(&a, 2).tz, -60);
    let b = DateTime { moment: 200000, tz: 0 };
    assert_eq!(days_before(&b, 2).moment, 200000 - 172800);
}

#[test]
fn saturating_addition_pegs_at_max() {
    let near = DateTime { moment: u64::MAX - 1, tz: 0 };
    assert_eq!(seconds_later(&near, 5).moment, u64::MAX);
    assert_eq!(append(&near, &hms(0, 0, 10)).moment, u64::MAX);
    assert_eq!(hms(u64::MAX, 0, 0).moment, u64::MAX);
}

#[test]
fn floor_to_days_rounds_down() {
    let a = DateTime { moment: 86400 * 3 + 12345, tz: 30 };
    let r = floor_to_days(&a);
    assert_eq!(r.moment, 86400 * 3);
    assert_eq!(r.tz, 30);
    assert_eq!(floor_to_days(&DateTime { moment: 86399, tz: 0 }).moment, 0);
}

#[test]
fn display_moment_shifts_by_offset() {
    let utc = DateTime { moment: 10000, tz: 0 };
    assert_eq!(moment(&utc), 10000);
    let east = with_timezone(&utc, 3600);
    assert_eq!(moment(&east), 13600);
    let west = with_timezone(&utc, -3600);
    assert_eq!(moment(&west), 6400);
    // a negative offset larger than the stamp clamps at the epoch
    let early = DateTime { moment: 100, tz: -3600 };
    assert_eq!(moment(&early), 0);
}

#[test]
fn clock_field_helpers() {
    let a = DateTime { moment: 86400 * 2 + 3600 * 5 + 60 * 7 + 9, tz: 0 };
    assert_eq!(days(&a), 2);
    assert_eq!(hours(&a), 2 * 24 + 5);
    assert_eq!(minutes(&a), 3187);
}
