use std::time::Instant;
use std::time::SystemTime;
use std::time::UNIX_EPOCH;

use to_display::to_system_time;
use to_display::DisplayConfig;
use to_display::DisplayInstant;
use to_display::WallTime;

/// Reads both clocks and places `t` on the wall clock.
fn wall_time_of(t: Instant) -> WallTime {
    let since_epoch = SystemTime::now().duration_since(UNIX_EPOCH).unwrap();
    let sys_now = WallTime { secs: since_epoch.as_secs() as i64, nanos: since_epoch.subsec_nanos() };
    let now = Instant::now();
    let elapsed = if now >= t {
        (now - t).as_nanos() as i128
    } else {
        -((t - now).as_nanos() as i128)
    };
    to_system_time(sys_now, elapsed).unwrap()
}

#[test]
fn test_display_instant() {
    let now = Instant::now();
    let time = wall_time_of(now);

    let display = DisplayInstant::new(time).to_string();
    println!("{}", display);
    // 20:31:18.645778
    let re = regex::Regex::new(r"^\d{2}:\d{2}:\d{2}\.\d{6}$").unwrap();
    assert!(re.is_match(&display),);

    let display = DisplayInstant::new(time).use_utc_time().to_string();
    println!("{}", display);
    // 20:31:18.645778
    let re = regex::Regex::new(r"^\d{2}:\d{2}:\d{2}\.\d{6}$").unwrap();
    assert!(re.is_match(&display),);

    let display = DisplayInstant::new(time).use_full_time().to_string();
    println!("{}", display);
    // 2024-12-28T23:37:31.646201Z+0800
    let re = regex::Regex::new(r"^\d{4}-\d{2}-\d{2}T\d{2}:\d{2}:\d{2}\.\d{6}Z[+-]\d{4}$").unwrap();
    assert!(re.is_match(&display),);
}

#[test]
fn test_display_tokio_instant() {
    let now = tokio::time::Instant::now();
    let time = wall_time_of(now.into_std());

    let display = DisplayInstant::new(time).to_string();
    println!("{}", display);
    // 20:31:18.645778
    let re = regex::Regex::new(r"^\d{2}:\d{2}:\d{2}\.\d{6}$").unwrap();
    assert!(re.is_match(&display),);

    let display = DisplayInstant::new(time).use_utc_time().to_string();
    println!("{}", display);
    // 20:31:18.645778
    let re = regex::Regex::new(r"^\d{2}:\d{2}:\d{2}\.\d{6}$").unwrap();
    assert!(re.is_match(&display),);
}
