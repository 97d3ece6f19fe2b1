//! Cooldown oracle: extraction of the remaining duration from page text.

use kp_sync::cooldown::{cooldown_response, default_cooldown_response, extract_duration};
use kp_sync::response::{FailureReason, KpResponse};

#[test]
fn twelve_minutes_is_750_seconds() {
    let text = "Time until next refresh available is 12 minutes";
    assert_eq!(extract_duration(text), Some(12 * 60 + 30));
}

#[test]
fn one_minute_is_90_seconds() {
    let text = "Time until next refresh available is 1 minute";
    assert_eq!(extract_duration(text), Some(90));
}

#[test]
fn sentence_embedded_in_page_text() {
    let text = "<html><body>Time until next refresh available is 5 minutes.</body></html>";
    assert_eq!(extract_duration(text), Some(5 * 60 + 30));
}

#[test]
fn no_minutes_token_yields_none() {
    assert_eq!(extract_duration("Please refresh later"), None);
    assert_eq!(extract_duration(""), None);
    assert_eq!(extract_duration("Time until next refresh available is  minutes"), None);
    assert_eq!(extract_duration("Time until next refresh available is soon"), None);
}

#[test]
fn digits_must_be_followed_by_minute() {
    assert_eq!(extract_duration("Time until next refresh available is 12 hours"), None);
}

#[test]
fn first_occurrence_wins() {
    let text = "Time until next refresh available is x; \
                Time until next refresh available is 3 minutes";
    assert_eq!(extract_duration(text), Some(3 * 60 + 30));
}

#[test]
fn default_cooldown_is_five_minutes() {
    let r = default_cooldown_response();
    assert!(matches!(
        r,
        KpResponse::Failure(FailureReason::RefreshCooldown(300))
    ));
}

#[test]
fn cooldown_response_uses_extracted_duration() {
    let r = cooldown_response(Some("Time until next refresh available is 2 minutes"));
    assert!(matches!(
        r,
        KpResponse::Failure(FailureReason::RefreshCooldown(150))
    ));
}

#[test]
fn cooldown_response_falls_back_to_default() {
    let r = cooldown_response(Some("nothing to see"));
    assert!(matches!(
        r,
        KpResponse::Failure(FailureReason::RefreshCooldown(300))
    ));
    let r = cooldown_response(None);
    assert!(matches!(
        r,
        KpResponse::Failure(FailureReason::RefreshCooldown(300))
    ));
}
