//! Stored-timestamp parsing and elapsed-time behavior.

use class_score::errors::ApiError;
use class_score::timestamp::elapsed_ms;
use class_score::timestamp::parse_str_time;
use class_score::timestamp::Timestamp;

#[test]
fn stored_form_parses() {
    let t = parse_str_time("2024-03-01 12:30:45").unwrap();
    assert_eq!(
        t,
        Timestamp { year: 2024, month: 3, day: 1, hour: 12, minute: 30, second: 45 }
    );
}

#[test]
fn epoch_conversion_known_instants() {
    let epoch = parse_str_time("1970-01-01 00:00:00").unwrap();
    assert_eq!(epoch.to_epoch_ms(), 0);
    let next_day = parse_str_time("1970-01-02 00:00:00").unwrap();
    assert_eq!(next_day.to_epoch_ms(), 86_400_000);
    // One billion seconds after the epoch.
    let billion = parse_str_time("2001-09-09 01:46:40").unwrap();
    assert_eq!(billion.to_epoch_ms(), 1_000_000_000_000);
    // The last second of the last millennium: 946684799 seconds in.
    let eve = parse_str_time("1999-12-31 23:59:59").unwrap();
    assert_eq!(eve.to_epoch_ms(), 946_684_799_000);
}

#[test]
fn leap_days_are_honored() {
    assert!(parse_str_time("2024-02-29 00:00:00").is_ok());
    assert!(matches!(
        parse_str_time("2023-02-29 00:00:00"),
        Err(ApiError::InvalidInput)
    ));
    // A century year not divisible by 400 is no leap year.
    assert!(matches!(
        parse_str_time("2100-02-29 00:00:00"),
        Err(ApiError::InvalidInput)
    ));
    assert!(parse_str_time("2000-02-29 00:00:00").is_ok());
}

#[test]
fn malformed_timestamps_are_rejected() {
    assert!(parse_str_time("2024-3-01 00:00:00").is_err());
    assert!(parse_str_time("2024-03-01T00:00:00").is_err());
    assert!(parse_str_time("2024-03-01 24:00:00").is_err());
    assert!(parse_str_time("2024-13-01 00:00:00").is_err());
    assert!(parse_str_time("2024-00-10 00:00:00").is_err());
    assert!(parse_str_time("1969-12-31 23:59:59").is_err());
    assert!(parse_str_time("2024-03-01 00:00:00 ").is_err());
    assert!(parse_str_time("").is_err());
}

#[test]
fn elapsed_corrects_for_the_zone_offset() {
    // The store wrote local time at UTC+9; one minute later in universal
    // time the elapsed duration is exactly one minute.
    let latest = parse_str_time("2001-09-09 10:46:40").unwrap();
    let offset_ms: i64 = 9 * 3_600_000;
    let now_ms: i64 = 1_000_000_000_000 + 60_000;
    assert_eq!(elapsed_ms(now_ms, &latest, offset_ms), 60_000);
}
