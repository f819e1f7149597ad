use soundscape::config::{
    is_in_schedule, is_in_schedule_from, is_in_schedule_now, local_today, localtime, next_end_time,
    next_epoch, next_start_time, parse_hms, Address, DailySchedule, Soundscape,
};
use soundscape::epochsy;
use soundscape::epochsy::{moment, DateTime};

fn test_config() -> Soundscape {
    Soundscape {
        listen_addr: Address { host: "127.0.0.1".to_string(), port: 4000 },
        subscribers: vec![Address { host: "127.0.0.1".to_string(), port: 4000 }],
        scenes: vec![],
        metro_step_ms: 10,
        voice_limit: 16,
        default_level: 1_000_000,
        background_scene: None,
        ignore_extra_speakers: Some(true),
        is_fallback_slave: None,
        daily_schedule: Some(DailySchedule {
            start: "18:30:00".to_string(),
            end: "01:00:00".to_string(),
        }),
    }
}

#[test]
fn diag() {
    let show_diag = false; // toggle to fail and print the following diag info
    let config = test_config();
    let today = local_today();
    println!("today {} ({:?})", moment(&today), today);
    let start = next_start_time(&config, &today);
    println!("start {} ({:?})", moment(&start), start);
    let end = next_end_time(&config, &start).unwrap();
    println!("end {} ({:?})", moment(&end), end);
    println!("now {} ({:?})", moment(&localtime()), localtime());
    println!("Is now in schedule? {}", is_in_schedule(&localtime(), &start, &end));
    assert!(!show_diag);
}

#[test]
fn schedules() {
    let config = test_config();
    println!("now: {:?}", &epochsy::now());
    println!("localtime: {:?}", localtime());
    println!("11:45:26 <=> {:?}", &epochsy::hms(11, 45, 26));
    println!(
        "midnight today <=> {:?}",
        epochsy::moment(&soundscape::config::to_localtime(&epochsy::floor_to_days(
            &epochsy::now()
        )))
    );

    println!("is_in_schedule_now currently? {:?}", is_in_schedule_now(&config, &localtime()));

    let start = next_start_time(&config, &localtime());
    assert!(start.moment > 0);

    let end_time_from_start = next_end_time(&config, &start);
    assert_ne!(end_time_from_start, None);
    let end_from_start = end_time_from_start.unwrap();
    let end_time = next_end_time(&config, &localtime());
    assert_ne!(end_time, None);
    let end = end_time.unwrap();

    println!("working with start: {:?} and end: {:?}", start, end);
    println!("total interval in seconds: {:?}", epochsy::diff(&end, &start));

    // characteristic features
    assert!(moment(&start) < moment(&end_from_start));
    // assert expected duration
    assert_eq!(moment(&end_from_start) - moment(&start), 23400);

    println!(
        "is_in_schedule currently? {:?} ({:?} to {:?})",
        is_in_schedule(&localtime(), &start, &end),
        start,
        end
    );
    assert!(is_in_schedule(&start, &start, &end_from_start));
    assert!(is_in_schedule(&end_from_start, &start, &end_from_start));

    let before = epochsy::append(&local_today(), &epochsy::hms(15, 39, 0));
    println!("before: {} ({:?})", moment(&before), before);
    assert!(before.moment < next_start_time(&config, &before).moment);
    assert!(next_start_time(&config, &before).moment < end_from_start.moment);

    let after = epochsy::append(&local_today(), &epochsy::hms(25, 31, 0));
    println!("after: {} ({:?})", moment(&after), after);
    let during = epochsy::append(&start, &epochsy::hms(1, 0, 0));
    println!("during: {} ({:?})", moment(&during), during);

    assert!(!is_in_schedule(&before, &start, &end));
    assert!(!is_in_schedule(&after, &start, &end));

    assert!(is_in_schedule_now(&config, &start));
    assert!(is_in_schedule_now(&config, &during));
    assert!(!is_in_schedule_now(&config, &before));
    assert!(!is_in_schedule_now(&config, &after));
    let before_end = epochsy::append(&local_today(), &epochsy::hms(20, 29, 0));
    println!("before_end: {} ({:?})", moment(&before_end), before_end);
    assert!(is_in_schedule_now(&config, &before_end));
}

#[test]
fn parse_hms_accepts_clock_times() {
    assert_eq!(parse_hms("18:30:00"), Some((18, 30, 0)));
    assert_eq!(parse_hms("00:00:00"), Some((0, 0, 0)));
    assert_eq!(parse_hms("23:59:59"), Some((23, 59, 59)));
    assert_eq!(parse_hms("01:00:00"), Some((1, 0, 0)));
}

#[test]
fn parse_hms_rejects_other_shapes() {
    assert_eq!(parse_hms(""), None);
    assert_eq!(parse_hms("1:30:00"), None);
    assert_eq!(parse_hms("18:30:00 "), None);
    assert_eq!(parse_hms("24:00:00"), None);
    assert_eq!(parse_hms("12:60:00"), None);
    assert_eq!(parse_hms("12:00:60"), None);
    assert_eq!(parse_hms("aa:bb:cc"), None);
    assert_eq!(parse_hms("12-30-00"), None);
}

// A day of schedule boundaries around a fixed reference: start 18:30, end
// 01:00 overnight, reference 17:00 into some day.
#[test]
fn schedule_boundaries_fixed_day() {
    let config = test_config();
    let day = DateTime { moment: 86400 * 19000, tz: 0 };
    let from = epochsy::append(&day, &epochsy::hms(17, 0, 0));

    let start = next_start_time(&config, &from);
    assert_eq!(start.moment - from.moment, 5400);

    let end = next_end_time(&config, &start).unwrap();
    assert_eq!(end.moment - start.moment, 23400);

    // closed at both endpoints
    assert!(is_in_schedule(&start, &start, &end));
    assert!(is_in_schedule(&end, &start, &end));

    // 15:39 the same day lies outside the window
    let outside = epochsy::append(&day, &epochsy::hms(15, 39, 0));
    assert!(!is_in_schedule(&outside, &start, &end));

    // the same answers against the explicit day boundary
    assert!(is_in_schedule_from(&config, &start, &day));
    assert!(!is_in_schedule_from(&config, &outside, &day));
}

// next_epoch never answers before the reference and always within a day.
#[test]
fn next_epoch_bounds_fixed_values() {
    let day = DateTime { moment: 86400 * 20000, tz: 0 };
    let clock = epochsy::hms(6, 15, 30);
    for offset in [0u64, 3600, 22530, 22531, 50000, 86399] {
        let from = epochsy::append(&day, &epochsy::hms(0, 0, offset));
        let next = next_epoch(&from, &clock);
        assert!(next.moment >= from.moment);
        assert!(next.moment - from.moment < 86400);
        assert_eq!(next.tz, 0);
    }
}

// No configured schedule: the start falls back to the zero sentinel, the end
// to none, and the installation is always live.
#[test]
fn no_schedule_sentinels() {
    let mut config = test_config();
    config.daily_schedule = None;
    let from = DateTime { moment: 86400 * 19000, tz: 0 };
    assert_eq!(next_start_time(&config, &from), DateTime { moment: 0, tz: 0 });
    assert_eq!(next_end_time(&config, &from), None);
    assert!(is_in_schedule_now(&config, &from));
}
