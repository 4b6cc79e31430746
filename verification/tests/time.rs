use pq_stark_bench::calendar::civil_from_days;
use pq_stark_bench::time::replace_char_in;
use pq_stark_bench::time::rfc3339_utc;
use pq_stark_bench::time::run_id;
use pq_stark_bench::time::UnixTime;
use std::time::{Duration, SystemTime, UNIX_EPOCH};

/// The clock value of `t`, as the caller of the library reads it.
fn unix_time(t: SystemTime) -> UnixTime {
    UnixTime { secs: t.duration_since(UNIX_EPOCH).unwrap().as_secs() }
}

#[test]
fn time_civil_from_days_matches_known_dates() {
    assert_eq!(civil_from_days(0), (1970, 1, 1));
    assert_eq!(civil_from_days(11_017), (2000, 3, 1));
    // 2026-07-23 is day 20657.
    assert_eq!(civil_from_days(20_657), (2026, 7, 23));
    assert_eq!(civil_from_days(20_658), (2026, 7, 24));
    // Leap-day boundary.
    assert_eq!(civil_from_days(19_782), (2024, 2, 29));
}

#[test]
fn time_rfc3339_formats_epoch() {
    assert_eq!(rfc3339_utc(unix_time(UNIX_EPOCH)), "1970-01-01T00:00:00Z");
}

#[test]
fn time_run_id_is_filesystem_safe() {
    let id = run_id(unix_time(UNIX_EPOCH), "somehost");
    assert!(!id.contains(':'));
    assert!(id.ends_with("-somehost"));
}

#[test]
fn main_civil_from_days_matches_known_dates() {
    // 1970-01-01 is day 0.
    assert_eq!(civil_from_days(0), (1970, 1, 1));
    // 2000-03-01 is day 11017.
    assert_eq!(civil_from_days(11_017), (2000, 3, 1));
    assert_eq!(civil_from_days(20_657), (2026, 7, 23));
    assert_eq!(civil_from_days(20_658), (2026, 7, 24));
    assert_eq!(civil_from_days(19_782), (2024, 2, 29));
}

#[test]
fn main_rfc3339_formats_epoch() {
    assert_eq!(rfc3339_utc(unix_time(UNIX_EPOCH)), "1970-01-01T00:00:00Z");
}

#[test]
fn main_run_id_is_filesystem_safe() {
    let ts = rfc3339_utc(unix_time(UNIX_EPOCH)).replace(':', "-");
    let id = format!("{ts}-somehost");
    assert!(!id.contains(':'));
}

#[test]
fn civil_from_days_before_the_epoch_and_far_ahead() {
    assert_eq!(civil_from_days(-1), (1969, 12, 31));
    assert_eq!(civil_from_days(-719_468), (0, 3, 1));
    assert_eq!(civil_from_days(-719_469), (0, 2, 29));
    assert_eq!(civil_from_days(2_932_896), (9999, 12, 31));
    assert_eq!(civil_from_days(11_016), (2000, 2, 29));
    assert_eq!(civil_from_days(-25_508), (1900, 3, 1));
    assert_eq!(civil_from_days(-25_509), (1900, 2, 28));
}

#[test]
fn rfc3339_renders_time_of_day_and_wide_years() {
    assert_eq!(rfc3339_utc(UnixTime { secs: 1_784_824_446 }), "2026-07-23T16:34:06Z");
    assert_eq!(rfc3339_utc(UnixTime { secs: 86_399 }), "1970-01-01T23:59:59Z");
    // Year 10000 prints five digits, as `{:04}` does.
    assert_eq!(rfc3339_utc(UnixTime { secs: 253_402_300_800 }), "10000-01-01T00:00:00Z");
}

#[test]
fn rfc3339_utc_reads_the_clock_value() {
    let t = UNIX_EPOCH + Duration::from_millis(951_782_400_999);
    assert_eq!(rfc3339_utc(unix_time(t)), "2000-02-29T00:00:00Z");
    assert_eq!(run_id(unix_time(t), "h"), "2000-02-29T00-00-00Z-h");
}

#[test]
fn run_id_replaces_every_colon() {
    assert_eq!(run_id(UnixTime { secs: 3_723 }, "lab-1"), "1970-01-01T01-02-03Z-lab-1");
    assert_eq!(replace_char_in("a:b::c", ':', '-'), "a-b--c");
}
