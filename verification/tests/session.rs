//! Session resolution behavior, with the real cookie-header parser.

use class_score::errors::ApiError;
use class_score::session::get_cookie;
use class_score::session::require_token;
use class_score::session::resolve_class_row;
use class_score::session::resolve_student_row;
use class_score::session::StudentInfo;

fn headers(values: &[&str]) -> Vec<String> {
    values.iter().map(|v| v.to_string()).collect()
}

#[test]
fn cookie_is_found_in_header() {
    let hs = headers(&["class_token=abc123; theme=dark"]);
    assert_eq!(get_cookie(&hs, &"class_token".to_string()), Some("abc123".to_string()));
    assert_eq!(get_cookie(&hs, &"theme".to_string()), Some("dark".to_string()));
}

#[test]
fn first_matching_cookie_wins() {
    let hs = headers(&["other=1", "class_token=tok1; class_token=tok2"]);
    assert_eq!(get_cookie(&hs, &"class_token".to_string()), Some("tok1".to_string()));
}

#[test]
fn malformed_entries_are_skipped() {
    let hs = headers(&["garbage;; class_token=z"]);
    assert_eq!(get_cookie(&hs, &"class_token".to_string()), Some("z".to_string()));
}

#[test]
fn absent_cookie_is_none() {
    let hs = headers(&["theme=dark"]);
    assert_eq!(get_cookie(&hs, &"class_token".to_string()), None);
    assert_eq!(get_cookie(&headers(&[]), &"class_token".to_string()), None);
}

#[test]
fn request_without_token_is_unauthenticated() {
    // A request with no session cookie fails before anything else happens.
    let hs = headers(&["theme=dark"]);
    let token = get_cookie(&hs, &"class_token".to_string());
    assert_eq!(require_token(token), Err(ApiError::Unauthenticated));
}

#[test]
fn present_token_is_passed_through() {
    assert_eq!(require_token(Some("abc".to_string())), Ok("abc".to_string()));
}

#[test]
fn unknown_token_is_invalid() {
    assert_eq!(resolve_class_row(None), Err(ApiError::InvalidToken));
    assert_eq!(resolve_class_row(Some("c9".to_string())), Ok("c9".to_string()));
}

#[test]
fn student_token_resolution() {
    let info = StudentInfo { class_id: "c1".to_string(), student_id: 7 };
    let resolved = resolve_student_row(Some(info));
    let resolved = resolved.unwrap();
    assert_eq!(resolved.class_id, "c1");
    assert_eq!(resolved.student_id, 7);
    assert!(resolve_student_row(None).is_err());
}

#[test]
fn error_messages_and_status_codes() {
    assert_eq!(ApiError::Unauthenticated.status_code(), 401);
    assert_eq!(ApiError::Unauthenticated.message(), "");
    assert_eq!(ApiError::InvalidToken.status_code(), 401);
    assert_eq!(ApiError::InvalidToken.message(), "Invalid token");
    assert_eq!(ApiError::InvalidInput.status_code(), 400);
    assert_eq!(ApiError::InvalidInput.message(), "Invalid params");
    assert_eq!(ApiError::NotFound.status_code(), 400);
    assert_eq!(ApiError::NotFound.message(), "Invalid school_id");
    assert_eq!(ApiError::StorageFailure.status_code(), 500);
    assert_eq!(ApiError::StorageFailure.message(), "");
}
