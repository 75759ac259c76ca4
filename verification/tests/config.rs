//! Configuration validation behavior.

use class_score::config::Config;
use class_score::errors::ApiError;
use class_score::parse::parse_bool;
use class_score::parse::parse_u64;

fn full_env() -> (Option<String>, Option<String>, Option<String>, Option<String>, Option<String>) {
    (
        Some("127.0.0.1:3000".to_string()),
        Some("example.org".to_string()),
        Some("false".to_string()),
        Some("sqlite://data.db".to_string()),
        Some("60000".to_string()),
    )
}

#[test]
fn complete_environment_is_accepted() {
    let (la, cd, cc, du, si) = full_env();
    let config = Config::from_env(la, cd, cc, du, si).unwrap();
    assert_eq!(config.listen_address, "127.0.0.1:3000");
    assert_eq!(config.cookie_domain, "example.org");
    assert!(!config.cookie_cross);
    assert_eq!(config.database_url, "sqlite://data.db");
    assert_eq!(config.sensor_interval, 60000);
}

#[test]
fn missing_variable_is_rejected() {
    let (la, cd, _, du, si) = full_env();
    let r = Config::from_env(la, cd, None, du, si);
    assert!(matches!(r, Err(ApiError::InvalidInput)));
}

#[test]
fn bad_boolean_is_rejected() {
    let (la, cd, _, du, si) = full_env();
    let r = Config::from_env(la, cd, Some("True".to_string()), du, si);
    assert!(matches!(r, Err(ApiError::InvalidInput)));
}

#[test]
fn bad_interval_is_rejected() {
    let (la, cd, cc, du, _) = full_env();
    let r = Config::from_env(la, cd, cc, du, Some("60s".to_string()));
    assert!(matches!(r, Err(ApiError::InvalidInput)));
}

#[test]
fn decimal_parse_accepts_exactly_u64() {
    assert_eq!(parse_u64("0"), Some(0));
    assert_eq!(parse_u64("00123"), Some(123));
    assert_eq!(parse_u64("18446744073709551615"), Some(u64::MAX));
    assert_eq!(parse_u64("18446744073709551616"), None);
    assert_eq!(parse_u64(""), None);
    assert_eq!(parse_u64("12a"), None);
    assert_eq!(parse_u64("-5"), None);
}

#[test]
fn boolean_parse_is_strict() {
    assert_eq!(parse_bool("true"), Some(true));
    assert_eq!(parse_bool("false"), Some(false));
    assert_eq!(parse_bool("TRUE"), None);
    assert_eq!(parse_bool(""), None);
}
