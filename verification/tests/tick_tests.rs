//! Scheduler steps: map-enter edges, resume-on-load, schedule firing, and
//! the end-to-end cooldown scenario.

use kp_sync::addon::Addon;
use kp_sync::cooldown::cooldown_response;
use kp_sync::coordinator::{coordinate_refresh_begin, coordinate_refresh_finish,
    handle_main_kp_response};
use kp_sync::request::{refresh_kp_request_step, RefreshStep};
use kp_sync::response::{FailureReason, KpResponse};
use kp_sync::schedule::ScheduledRefresh;
use kp_sync::tick::{background_tick, refresh_on_load, refresh_on_schedule,
    schedule_on_map_enter};

fn addon_with_designated(maps: Vec<u32>) -> Addon {
    let mut addon = Addon::default();
    addon.config.kp_identifiers.main_id = "abc123".to_string();
    addon.config.kp_map_ids = maps;
    addon.config.retain_refresh_map_ids = Vec::new();
    addon
}

#[test]
fn zone_enter_reported_only_on_edges() {
    let mut addon = addon_with_designated(vec![5]);
    let zones = [0u32, 5, 5, 7, 7, 5];
    let mut events = Vec::new();
    for z in zones {
        events.push(schedule_on_map_enter(&mut addon, Some(z)));
    }
    assert_eq!(events, vec![false, true, false, false, false, true]);
}

#[test]
fn zone_enter_schedules_refresh() {
    let mut addon = addon_with_designated(vec![5]);
    schedule_on_map_enter(&mut addon, Some(5));
    assert_eq!(
        addon.context.scheduled_refresh,
        Some(ScheduledRefresh::OnNormalMapEnter)
    );
}

#[test]
fn missing_location_counts_as_not_designated() {
    let mut addon = addon_with_designated(vec![5]);
    addon.context.on_kp_map = true;
    let entered = schedule_on_map_enter(&mut addon, None);
    assert!(!entered);
    assert!(!addon.context.on_kp_map);
}

#[test]
fn disabled_scheduling_changes_nothing() {
    let mut addon = addon_with_designated(vec![5]);
    addon.config.scheduling_on_map_enter_enabled = false;
    let entered = schedule_on_map_enter(&mut addon, Some(5));
    assert!(!entered);
    assert_eq!(addon.context.scheduled_refresh, None);
    assert!(!addon.context.on_kp_map);
}

#[test]
fn owed_refresh_fires_outside_designated_maps() {
    let mut addon = addon_with_designated(vec![5]);
    addon.config.refresh_on_next_load = true;
    let fire = refresh_on_load(&mut addon, Some(3));
    assert!(fire);
    assert!(!addon.config.refresh_on_next_load);
    assert_eq!(addon.context.scheduled_refresh, None);
}

#[test]
fn owed_refresh_converts_to_schedule_on_designated_map() {
    let mut addon = addon_with_designated(vec![5]);
    addon.config.refresh_on_next_load = true;
    let fire = refresh_on_load(&mut addon, Some(5));
    assert!(!fire);
    assert!(!addon.config.refresh_on_next_load);
    assert_eq!(
        addon.context.scheduled_refresh,
        Some(ScheduledRefresh::OnNormalMapEnter)
    );
}

#[test]
fn owed_refresh_waits_for_location_signal() {
    let mut addon = addon_with_designated(vec![5]);
    addon.config.refresh_on_next_load = true;
    assert!(!refresh_on_load(&mut addon, Some(0)));
    assert!(addon.config.refresh_on_next_load);
    assert!(!refresh_on_load(&mut addon, None));
    assert!(addon.config.refresh_on_next_load);
}

#[test]
fn map_enter_schedule_fires_off_designated_and_retain_maps() {
    let mut addon = addon_with_designated(vec![5]);
    addon.config.retain_refresh_map_ids = vec![9];
    addon.context.scheduled_refresh = Some(ScheduledRefresh::OnNormalMapEnter);
    addon.context.on_kp_map = true;
    assert!(!refresh_on_schedule(&mut addon, 0, Some(5)));
    addon.context.on_kp_map = false;
    assert!(!refresh_on_schedule(&mut addon, 0, Some(9)));
    assert_eq!(
        addon.context.scheduled_refresh,
        Some(ScheduledRefresh::OnNormalMapEnter)
    );
    assert!(refresh_on_schedule(&mut addon, 0, Some(3)));
    assert_eq!(addon.context.scheduled_refresh, None);
}

#[test]
fn cooldown_end_to_end() {
    let mut addon = addon_with_designated(vec![5]);
    let now: u64 = 10_000;

    // A manual refresh starts; the service answers "not modified".
    let plan = coordinate_refresh_begin(&mut addon);
    assert_eq!(plan, Some("abc123".to_string()));
    let kp_id = plan.unwrap();
    let step = refresh_kp_request_step(&kp_id, true, Some(304), None);
    assert!(matches!(step, RefreshStep::FetchCooldown));

    // The status page announces one minute of cooldown.
    let outcome = cooldown_response(Some("Time until next refresh available is 1 minute"));
    assert!(matches!(
        outcome,
        KpResponse::Failure(FailureReason::RefreshCooldown(90))
    ));
    handle_main_kp_response(&mut addon, outcome, now);
    coordinate_refresh_finish(&mut addon, Vec::new());
    assert_eq!(
        addon.context.scheduled_refresh,
        Some(ScheduledRefresh::OnTime(now + 90))
    );
    assert!(!addon.context.refresh_in_progress);

    // One evaluation tick before the instant: nothing happens.
    let d = background_tick(&mut addon, now + 89, Some(3));
    assert!(!d.start_refresh_on_load && !d.zone_entered && !d.start_refresh_on_schedule);
    assert_eq!(
        addon.context.scheduled_refresh,
        Some(ScheduledRefresh::OnTime(now + 90))
    );

    // One at the instant: the schedule fires exactly one new refresh.
    let d = background_tick(&mut addon, now + 90, Some(3));
    assert!(d.start_refresh_on_schedule);
    assert!(!d.start_refresh_on_load && !d.zone_entered);
    assert_eq!(addon.context.scheduled_refresh, None);
    let plan = coordinate_refresh_begin(&mut addon);
    assert_eq!(plan, Some("abc123".to_string()));

    // While that refresh is in flight, another trigger is dropped.
    assert_eq!(coordinate_refresh_begin(&mut addon), None);
}

#[test]
fn autodetection_skips_tick_until_name_known() {
    let mut addon = addon_with_designated(vec![5]);
    addon.config.autodetect_account_name = true;
    addon.config.refresh_on_next_load = true;
    let d = background_tick(&mut addon, 0, Some(3));
    assert!(!d.start_refresh_on_load && !d.zone_entered && !d.start_refresh_on_schedule);
    assert!(addon.config.refresh_on_next_load);
    assert_eq!(addon.config.kp_identifiers.main_id, "abc123");
}

#[test]
fn autodetection_installs_detected_name() {
    let mut addon = addon_with_designated(vec![5]);
    kp_sync::addon::init_context(&mut addon);
    addon.config.autodetect_account_name = true;
    addon.context.detected_account_name = "jennah.1234".to_string();
    addon.context.scheduled_refresh = Some(ScheduledRefresh::OnTime(5));
    background_tick(&mut addon, 0, Some(3));
    assert_eq!(addon.config.kp_identifiers.main_id, "jennah.1234");
    // The identifier changed, so the pending schedule was reset.
    assert_eq!(addon.context.scheduled_refresh, None);
}

#[test]
fn shutdown_marks_resume_flag_only_when_scheduled() {
    let mut addon = addon_with_designated(vec![5]);
    addon.context.scheduled_refresh = Some(ScheduledRefresh::OnTime(5));
    addon.prepare_shutdown();
    assert!(!addon.context.run_background_thread);
    assert!(addon.config.refresh_on_next_load);

    let mut addon = addon_with_designated(vec![5]);
    addon.prepare_shutdown();
    assert!(!addon.config.refresh_on_next_load);
}
