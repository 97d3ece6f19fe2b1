//! Reply decoding, endpoint paths, registry draining, configuration
//! migration and linked-identifier discovery results.

use kp_sync::addon::Addon;
use kp_sync::config::{migrate_configs, Config};
use kp_sync::linked::{apply_linked_ids_result, begin_linked_discovery, disable_linked_ids};
use kp_sync::registry::TaskRegistry;
use kp_sync::request::{
    contains_status_ok, handle_not_modified_http_response, handle_ok_http_response, kp_path,
    refresh_kp_request_step, refresh_path, RefreshStep,
};
use kp_sync::response::{FailureReason, KpResponse};

#[test]
fn endpoint_paths() {
    let id = "abc123".to_string();
    assert_eq!(kp_path(&id), "https://killproof.me/proof/abc123");
    assert_eq!(refresh_path(&id), "https://killproof.me/proof/abc123/refresh");
}

#[test]
fn success_marker_detection() {
    assert!(contains_status_ok("{\"status\":\"ok\"}"));
    assert!(!contains_status_ok("{\"status\":\"error\"}"));
    assert!(!contains_status_ok(""));
}

#[test]
fn ok_reply_decoding() {
    let id = "abc123".to_string();
    let r = handle_ok_http_response(&id, Some("{\"status\":\"ok\"}"));
    assert!(matches!(r, KpResponse::Success));
    let r = handle_ok_http_response(&id, Some("no such id"));
    assert!(matches!(r, KpResponse::InvalidId(x) if x == "abc123"));
    let r = handle_ok_http_response(&id, None);
    assert!(matches!(r, KpResponse::Failure(FailureReason::Unknown)));
}

#[test]
fn not_modified_reply_decoding() {
    assert!(handle_not_modified_http_response(true).is_none());
    let r = handle_not_modified_http_response(false).unwrap();
    assert!(matches!(
        r,
        KpResponse::Failure(FailureReason::RefreshCooldown(300))
    ));
}

#[test]
fn status_code_mapping_is_total() {
    let id = "abc123".to_string();
    let r = refresh_kp_request_step(&id, true, Some(403), None);
    assert!(matches!(
        r,
        RefreshStep::Done(KpResponse::Failure(FailureReason::NotAccessible))
    ));
    let r = refresh_kp_request_step(&id, true, Some(404), None);
    assert!(matches!(
        r,
        RefreshStep::Done(KpResponse::Failure(FailureReason::NotFound))
    ));
    let r = refresh_kp_request_step(&id, true, None, None);
    assert!(matches!(
        r,
        RefreshStep::Done(KpResponse::Failure(FailureReason::Unknown))
    ));
    let r = refresh_kp_request_step(&id, true, Some(500), None);
    assert!(matches!(
        r,
        RefreshStep::Done(KpResponse::Failure(FailureReason::Unknown))
    ));
    let r = refresh_kp_request_step(&id, true, Some(200), Some("{\"status\":\"ok\"}"));
    assert!(matches!(r, RefreshStep::Done(KpResponse::Success)));
    let r = refresh_kp_request_step(&id, false, Some(304), None);
    assert!(matches!(
        r,
        RefreshStep::Done(KpResponse::Failure(FailureReason::RefreshCooldown(300)))
    ));
}

#[test]
fn registry_drains_every_task() {
    let mut registry = TaskRegistry::new();
    registry.register(10);
    registry.register(20);
    registry.register(30);
    assert_eq!(registry.len(), 3);
    let drained = registry.drain_all();
    assert_eq!(drained, vec![30, 20, 10]);
    assert_eq!(registry.len(), 0);
    assert_eq!(registry.drain_all(), Vec::<u64>::new());
}

#[test]
fn registry_reaps_only_finished_tasks() {
    let mut registry = TaskRegistry::new();
    registry.register(1);
    registry.register(2);
    registry.register(3);
    registry.reap(&vec![false, true, false]);
    assert_eq!(registry.len(), 2);
    assert_eq!(registry.drain_all(), vec![3, 1]);
}

#[test]
fn migration_adds_new_default_maps() {
    let mut config = Config::default();
    config.version = "0.9.5".to_string();
    config.retain_refresh_map_ids = vec![1155];
    config.kp_map_ids = vec![1062];
    migrate_configs(&mut config);
    assert!(config.retain_refresh_map_ids.contains(&1154));
    assert!(config.kp_map_ids.contains(&1564));
    assert_eq!(config.version, "1.1.0");
}

#[test]
fn migration_leaves_current_config_alone() {
    let mut config = Config::default();
    config.version = "1.1.0".to_string();
    config.retain_refresh_map_ids = vec![1155];
    config.kp_map_ids = vec![1062];
    migrate_configs(&mut config);
    assert_eq!(config.retain_refresh_map_ids, vec![1155]);
    assert_eq!(config.kp_map_ids, vec![1062]);
}

#[test]
fn empty_discovery_surfaces_error() {
    let mut addon = Addon::default();
    begin_linked_discovery(&mut addon);
    assert_eq!(addon.config.kp_identifiers.linked_ids, Some(Vec::new()));
    apply_linked_ids_result(&mut addon, Vec::new());
    assert_eq!(addon.config.kp_identifiers.linked_ids, None);
    assert!(addon.context.ui.errors.linked_ids);
}

#[test]
fn discovery_installs_found_identifiers() {
    let mut addon = Addon::default();
    begin_linked_discovery(&mut addon);
    apply_linked_ids_result(
        &mut addon,
        vec!["one.1111".to_string(), "two.2222".to_string()],
    );
    assert_eq!(
        addon.config.kp_identifiers.linked_ids,
        Some(vec!["one.1111".to_string(), "two.2222".to_string()])
    );
    assert!(!addon.context.ui.errors.linked_ids);
    disable_linked_ids(&mut addon);
    assert_eq!(addon.config.kp_identifiers.linked_ids, None);
}

#[test]
fn context_validity_tracks_invalid_id_answers() {
    let mut addon = Addon::default();
    addon.config.kp_identifiers.main_id = "abc123".to_string();
    assert!(addon.context.valid("abc123"));
    addon.context.main_kp_response = KpResponse::InvalidId("abc123".to_string());
    assert!(!addon.context.valid("abc123"));
    assert!(addon.context.valid("other"));
}

#[test]
fn status_line_for_the_user() {
    let mut addon = Addon::default();
    addon.config.kp_identifiers.main_id = "abc123".to_string();
    assert_eq!(addon.current_status_text(), "not refreshed recently");
    addon.context.refresh_in_progress = true;
    assert_eq!(addon.current_status_text(), "refresh is in progress..");
    addon.context.refresh_in_progress = false;
    addon.config.kp_identifiers.main_id = "!".to_string();
    assert_eq!(
        addon.current_status_text(),
        "invalid config (KP id format invalid)"
    );
}
