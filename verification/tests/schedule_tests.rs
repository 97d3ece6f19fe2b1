//! Countdown wording and schedule rendering.

use kp_sync::response::{FailureReason, KpResponse};
use kp_sync::schedule::{countdown_str, scheduled_refresh_text, ScheduledRefresh};

#[test]
fn countdown_minutes_round_up() {
    assert_eq!(countdown_str(60), "2 minutes");
    assert_eq!(countdown_str(90), "2 minutes");
    assert_eq!(countdown_str(120), "3 minutes");
    assert_eq!(countdown_str(750), "13 minutes");
}

#[test]
fn countdown_seconds() {
    assert_eq!(countdown_str(59), "59 seconds");
    assert_eq!(countdown_str(2), "2 seconds");
    assert_eq!(countdown_str(1), "1 second");
}

#[test]
fn countdown_past_or_now() {
    assert_eq!(countdown_str(0), "starts soon..");
    assert_eq!(countdown_str(-5), "starts soon..");
}

#[test]
fn schedule_rendering() {
    assert_eq!(scheduled_refresh_text(&None, 1000), "not planned");
    assert_eq!(
        scheduled_refresh_text(&Some(ScheduledRefresh::OnNormalMapEnter), 1000),
        "on normal map enter"
    );
    assert_eq!(
        scheduled_refresh_text(&Some(ScheduledRefresh::OnTime(1090)), 1000),
        "in 2 minutes"
    );
    assert_eq!(
        scheduled_refresh_text(&Some(ScheduledRefresh::OnTime(900)), 1000),
        "in starts soon.."
    );
}

#[test]
fn response_status_texts() {
    assert_eq!(KpResponse::Unavailable.status_text(), "not refreshed recently");
    assert_eq!(KpResponse::Success.status_text(), "refresh successful");
    assert_eq!(
        KpResponse::InvalidId("abc".to_string()).status_text(),
        "invalid config (KP id \"abc\" not found)"
    );
    assert_eq!(
        KpResponse::Failure(FailureReason::NotFound).status_text(),
        "failed (not found)"
    );
    assert_eq!(
        KpResponse::Failure(FailureReason::NotAccessible).status_text(),
        "failed (not accessible)"
    );
    assert_eq!(
        KpResponse::Failure(FailureReason::RefreshCooldown(90)).status_text(),
        "failed (refreshed too recently)"
    );
    assert_eq!(
        KpResponse::Failure(FailureReason::Unknown).status_text(),
        "failed (unknown error occurred)"
    );
}
