use importer_service::time::{
    apply_offset, get_date_time_with_offset_at, NaiveTimestamp, TimeError, UtcInstant,
};
use importer_service::utils::get_date_time_with_offset;

fn seconds_of(year: i32, month: u32, day: u32, hour: u32, minute: u32, second: u32) -> i64 {
    chrono::NaiveDate::from_ymd_opt(year, month, day)
        .unwrap()
        .and_hms_opt(hour, minute, second)
        .unwrap()
        .and_utc()
        .timestamp()
}

fn reading(year: i32, month: u32, day: u32, hour: u32) -> NaiveTimestamp {
    NaiveTimestamp { secs: seconds_of(year, month, day, hour, 0, 0), nanos: 0 }
}

fn instant(year: i32, month: u32, day: u32, hour: u32) -> UtcInstant {
    UtcInstant { secs: seconds_of(year, month, day, hour, 0, 0), nanos: 0 }
}

#[test]
fn reading_at_utc_plus_five_is_moved_back_five_hours() {
    // The zone that is five hours ahead of UTC all year is named with the sign turned round.
    let got = get_date_time_with_offset(reading(2024, 1, 15, 10), "Etc/GMT-5");
    assert_eq!(got, Ok(instant(2024, 1, 15, 5)));
    assert_eq!(got.unwrap().secs, 1_705_294_800);
}

#[test]
fn reading_in_plain_utc_is_unchanged() {
    let got = get_date_time_with_offset(reading(2024, 1, 15, 10), "UTC");
    assert_eq!(got, Ok(instant(2024, 1, 15, 10)));
}

#[test]
fn zone_behind_utc_moves_the_reading_forward() {
    let now = instant(2024, 1, 20, 0);
    let got = get_date_time_with_offset_at(reading(2024, 1, 15, 10), "America/New_York", now);
    assert_eq!(got, Ok(instant(2024, 1, 15, 15)));
}

#[test]
fn offset_is_the_one_in_force_when_the_call_is_made() {
    // Berlin is one hour ahead in winter and two in summer. A summer reading that is
    // normalised in winter is moved by the winter offset, which is an hour off the truth.
    let summer_reading = reading(2024, 7, 15, 10);
    let in_winter = get_date_time_with_offset_at(summer_reading, "Europe/Berlin", instant(2024, 1, 20, 0));
    let in_summer = get_date_time_with_offset_at(summer_reading, "Europe/Berlin", instant(2024, 7, 20, 0));
    assert_eq!(in_winter, Ok(instant(2024, 7, 15, 9)));
    assert_eq!(in_summer, Ok(instant(2024, 7, 15, 8)));
    assert_ne!(in_winter, in_summer);
}

#[test]
fn same_instant_of_observation_gives_the_same_result() {
    let now = instant(2024, 3, 1, 12);
    let first = get_date_time_with_offset_at(reading(2023, 11, 2, 8), "Asia/Kolkata", now);
    let second = get_date_time_with_offset_at(reading(2023, 11, 2, 8), "Asia/Kolkata", now);
    assert_eq!(first, second);
    assert_eq!(first, Ok(UtcInstant { secs: seconds_of(2023, 11, 2, 2, 30, 0), nanos: 0 }));
}

#[test]
fn nanoseconds_are_kept() {
    let got = get_date_time_with_offset_at(
        NaiveTimestamp { secs: 3600, nanos: 123_456_789 },
        "Etc/GMT-1",
        instant(2024, 1, 1, 0),
    );
    assert_eq!(got, Ok(UtcInstant { secs: 0, nanos: 123_456_789 }));
}

#[test]
fn unknown_zone_has_no_offset() {
    let got = get_date_time_with_offset(reading(2024, 1, 15, 10), "Mars/Olympus_Mons");
    assert_eq!(got, Err(TimeError::NoOffset));
    let got = get_date_time_with_offset(reading(2024, 1, 15, 10), "");
    assert_eq!(got, Err(TimeError::NoOffset));
}

#[test]
fn zone_names_are_matched_exactly() {
    let got = get_date_time_with_offset_at(reading(2024, 1, 15, 10), "europe/berlin", instant(2024, 1, 20, 0));
    assert_eq!(got, Err(TimeError::NoOffset));
}

#[test]
fn observation_beyond_the_calendar_has_no_offset() {
    let now = UtcInstant { secs: i64::MAX, nanos: 0 };
    let got = get_date_time_with_offset_at(reading(2024, 1, 15, 10), "UTC", now);
    assert_eq!(got, Err(TimeError::NoOffset));
}

#[test]
fn apply_offset_subtracts_seconds_east() {
    let at = NaiveTimestamp { secs: 1_705_312_800, nanos: 7 };
    assert_eq!(apply_offset(at, 18_000), Ok(UtcInstant { secs: 1_705_294_800, nanos: 7 }));
    assert_eq!(apply_offset(at, -18_000), Ok(UtcInstant { secs: 1_705_330_800, nanos: 7 }));
    assert_eq!(apply_offset(at, 0), Ok(UtcInstant { secs: 1_705_312_800, nanos: 7 }));
}

#[test]
fn apply_offset_stops_at_the_ends_of_the_range() {
    let low = NaiveTimestamp { secs: i64::MIN + 3600, nanos: 0 };
    assert_eq!(apply_offset(low, 3600), Ok(UtcInstant { secs: i64::MIN, nanos: 0 }));
    assert_eq!(apply_offset(low, 3601), Err(TimeError::OutOfRange));
    let high = NaiveTimestamp { secs: i64::MAX - 3600, nanos: 0 };
    assert_eq!(apply_offset(high, -3600), Ok(UtcInstant { secs: i64::MAX, nanos: 0 }));
    assert_eq!(apply_offset(high, -3601), Err(TimeError::OutOfRange));
    assert_eq!(
        apply_offset(NaiveTimestamp { secs: i64::MIN, nanos: 0 }, i32::MIN),
        Ok(UtcInstant { secs: i64::MIN + 2_147_483_648, nanos: 0 })
    );
    assert_eq!(
        apply_offset(NaiveTimestamp { secs: i64::MAX, nanos: 0 }, i32::MIN),
        Err(TimeError::OutOfRange)
    );
}

#[test]
fn later_than_orders_by_seconds_then_nanoseconds() {
    let a = UtcInstant { secs: 10, nanos: 5 };
    let b = UtcInstant { secs: 10, nanos: 6 };
    let c = UtcInstant { secs: 11, nanos: 0 };
    assert!(b.is_later_than(&a));
    assert!(c.is_later_than(&b));
    assert!(!a.is_later_than(&b));
    assert!(!a.is_later_than(&a));
    assert!(UtcInstant { secs: -1, nanos: 0 }.is_later_than(&UtcInstant { secs: -2, nanos: 999 }));
}

#[test]
fn reading_at_the_edge_of_the_range_cannot_be_moved_beyond_it() {
    let now = instant(2024, 1, 20, 0);
    let earliest = NaiveTimestamp { secs: i64::MIN, nanos: 0 };
    assert_eq!(
        get_date_time_with_offset_at(earliest, "Etc/GMT-5", now),
        Err(TimeError::OutOfRange)
    );
    assert_eq!(
        get_date_time_with_offset_at(earliest, "Etc/GMT+5", now),
        Ok(UtcInstant { secs: i64::MIN + 18_000, nanos: 0 })
    );
    assert_eq!(get_date_time_with_offset(earliest, "Etc/GMT-5"), Err(TimeError::OutOfRange));
}
