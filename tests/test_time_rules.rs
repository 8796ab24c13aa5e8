use to_display::text_or_empty;
use to_display::to_system_time;
use to_display::wall_time_from_epoch;
use to_display::DisplayConfig;
use to_display::DisplayInstant;
use to_display::WallTime;

fn at(secs: i64, nanos: u32) -> DisplayInstant {
    DisplayInstant::new(WallTime { secs, nanos })
}

#[test]
fn utc_short_and_full_patterns() {
    let d = at(1431648000, 123_456_000).use_utc_time();
    assert_eq!(d.to_string(), "00:00:00.123456");
    assert_eq!(d.use_full_time().to_string(), "2015-05-15T00:00:00.123456Z+0000");
}

#[test]
fn utc_custom_pattern_is_used_as_it_stands() {
    let d = at(1431648000, 0).use_utc_time().with_time_format("%Y/%m/%d");
    assert_eq!(d.to_string(), "2015/05/15");
    let d = at(-1, 0).use_utc_time().with_time_format("%Y-%m-%d %H:%M:%S");
    assert_eq!(d.to_string(), "1969-12-31 23:59:59");
}

#[test]
fn malformed_pattern_gives_empty_text() {
    let d = at(0, 0).use_utc_time().with_time_format("%Q");
    assert_eq!(d.to_string(), "");
    assert_eq!(text_or_empty(None), "");
    assert_eq!(text_or_empty(Some(String::from("x"))), "x");
}

#[test]
fn past_and_future_moments() {
    let now = WallTime { secs: 10, nanos: 5 };
    assert_eq!(to_system_time(now, 6), Some(WallTime { secs: 9, nanos: 999_999_999 }));
    assert_eq!(to_system_time(now, -1_000_000_000), Some(WallTime { secs: 11, nanos: 5 }));
    assert_eq!(to_system_time(now, 5), Some(WallTime { secs: 10, nanos: 0 }));
    assert_eq!(to_system_time(now, 10_000_000_005), Some(WallTime { secs: 0, nanos: 0 }));
    assert_eq!(to_system_time(now, 10_000_000_006), Some(WallTime { secs: -1, nanos: 999_999_999 }));
}

#[test]
fn moments_beyond_the_range_are_refused() {
    let now = WallTime { secs: i64::MAX, nanos: 999_999_999 };
    assert_eq!(to_system_time(now, 0), Some(now));
    assert_eq!(to_system_time(now, -1), None);
    assert_eq!(to_system_time(WallTime { secs: 0, nanos: 0 }, i128::MIN), None);
    assert_eq!(to_system_time(WallTime { secs: i64::MIN, nanos: 0 }, i128::MAX), None);
}

#[test]
fn offsets_from_the_epoch() {
    assert_eq!(wall_time_from_epoch(false, 3, 7), Some(WallTime { secs: 3, nanos: 7 }));
    assert_eq!(wall_time_from_epoch(true, 3, 0), Some(WallTime { secs: -3, nanos: 0 }));
    assert_eq!(wall_time_from_epoch(true, 3, 250_000_000), Some(WallTime { secs: -4, nanos: 750_000_000 }));
    assert_eq!(wall_time_from_epoch(false, u64::MAX, 0), None);
}

#[test]
fn other_settings_leave_a_timestamp_alone() {
    let d = at(1431648000, 5_000).use_utc_time();
    assert_eq!(d.to_string(), "00:00:00.000005");
    let d = d.verbose().limit_items(1);
    assert_eq!(d.to_string(), "00:00:00.000005");
}
