//! Behavior of the settings store: defaults, round trips, the mutation
//! policy, and the asymmetric handling of a broken file.

use cs_lineups::json::JsonVal;
use cs_lineups::settings::{
    apply_setting, settings_from_json, settings_to_json, AppSettings, SettingsError,
};
use cs_lineups::store::{load_settings, plan_update, ReadOutcome};

const PRETTY_DEFAULT_TRUE: &str =
    "{\n  \"auto_update_enabled\": true,\n  \"last_update_check\": null\n}";

#[test]
fn default_on_absence() {
    let s = load_settings(&ReadOutcome::Missing).unwrap();
    assert_eq!(s.auto_update_enabled, false);
    assert_eq!(s.last_update_check, None);
}

#[test]
fn round_trip_through_file_text() {
    let stamp = "2024-05-01T10:00:00Z";
    let plan = plan_update(
        &ReadOutcome::Missing,
        "last_update_check",
        &JsonVal::Str(stamp.to_string()),
    )
    .unwrap();
    assert_eq!(plan.settings.last_update_check.as_deref(), Some(stamp));
    let loaded = load_settings(&ReadOutcome::Content(plan.text.clone())).unwrap();
    assert!(loaded == plan.settings);
}

#[test]
fn record_round_trips_through_its_json_object() {
    let s = AppSettings {
        auto_update_enabled: true,
        last_update_check: Some("2024-05-01T10:00:00Z".to_string()),
    };
    let back = settings_from_json(&settings_to_json(&s)).unwrap();
    assert!(back == s);
}

#[test]
fn written_text_is_the_documented_layout() {
    let plan = plan_update(&ReadOutcome::Missing, "auto_update_enabled", &JsonVal::Bool(true))
        .unwrap();
    assert_eq!(plan.text, PRETTY_DEFAULT_TRUE);
}

#[test]
fn unknown_key_rejected() {
    let r = plan_update(&ReadOutcome::Missing, "bogus", &JsonVal::Bool(true));
    assert_eq!(r.unwrap_err(), SettingsError::UnknownKey("bogus".to_string()));
}

#[test]
fn unknown_key_rejected_before_a_write_is_planned() {
    let text = PRETTY_DEFAULT_TRUE.to_string();
    let r = plan_update(&ReadOutcome::Content(text), "bogus", &JsonVal::Bool(false));
    assert!(matches!(r, Err(SettingsError::UnknownKey(_))));
}

#[test]
fn type_mismatch_is_a_noop() {
    let before = ReadOutcome::Content(PRETTY_DEFAULT_TRUE.to_string());
    let plan = plan_update(
        &before,
        "auto_update_enabled",
        &JsonVal::Str("not-a-bool".to_string()),
    )
    .unwrap();
    assert_eq!(plan.settings.auto_update_enabled, true);
}

#[test]
fn corrupt_file_swallowed_on_write() {
    let plan = plan_update(
        &ReadOutcome::Content("{not json".to_string()),
        "auto_update_enabled",
        &JsonVal::Bool(true),
    )
    .unwrap();
    assert_eq!(plan.settings.auto_update_enabled, true);
    assert_eq!(plan.settings.last_update_check, None);
    let reloaded = load_settings(&ReadOutcome::Content(plan.text.clone())).unwrap();
    assert!(reloaded == plan.settings);
}

#[test]
fn corrupt_file_surfaced_on_read() {
    let r = load_settings(&ReadOutcome::Content("{not json".to_string()));
    assert_eq!(r.unwrap_err(), SettingsError::Parse);
}

#[test]
fn repeated_update_writes_identical_text() {
    let first = plan_update(&ReadOutcome::Missing, "auto_update_enabled", &JsonVal::Bool(true))
        .unwrap();
    let second = plan_update(
        &ReadOutcome::Content(first.text.clone()),
        "auto_update_enabled",
        &JsonVal::Bool(true),
    )
    .unwrap();
    assert_eq!(first.text, second.text);
    assert!(first.settings == second.settings);
}

#[test]
fn update_with_no_prior_file_succeeds() {
    let plan = plan_update(
        &ReadOutcome::Missing,
        "last_update_check",
        &JsonVal::Str("now".to_string()),
    )
    .unwrap();
    assert_eq!(plan.settings.auto_update_enabled, false);
    assert_eq!(plan.settings.last_update_check.as_deref(), Some("now"));
}

#[test]
fn failed_read_is_surfaced_by_both_operations() {
    let msg = "permission denied".to_string();
    let r1 = load_settings(&ReadOutcome::Unreadable(msg.clone()));
    assert_eq!(r1.unwrap_err(), SettingsError::Read(msg.clone()));
    let r2 = plan_update(
        &ReadOutcome::Unreadable(msg.clone()),
        "auto_update_enabled",
        &JsonVal::Bool(true),
    );
    assert_eq!(r2.unwrap_err(), SettingsError::Read(msg));
}

#[test]
fn unknown_keys_tolerated_on_read() {
    let text = "{\"auto_update_enabled\":true,\"extra\":[1,2,{\"deep\":null}],\"last_update_check\":\"t\"}";
    let s = load_settings(&ReadOutcome::Content(text.to_string())).unwrap();
    assert_eq!(s.auto_update_enabled, true);
    assert_eq!(s.last_update_check.as_deref(), Some("t"));
}

#[test]
fn missing_flag_is_a_parse_error() {
    let r = load_settings(&ReadOutcome::Content("{\"last_update_check\":null}".to_string()));
    assert_eq!(r.unwrap_err(), SettingsError::Parse);
}

#[test]
fn missing_timestamp_reads_as_absent() {
    let s = load_settings(&ReadOutcome::Content("{\"auto_update_enabled\":false}".to_string()))
        .unwrap();
    assert_eq!(s.auto_update_enabled, false);
    assert_eq!(s.last_update_check, None);
}

#[test]
fn wrong_typed_timestamp_is_a_parse_error() {
    let text = "{\"auto_update_enabled\":true,\"last_update_check\":5}";
    let r = load_settings(&ReadOutcome::Content(text.to_string()));
    assert_eq!(r.unwrap_err(), SettingsError::Parse);
}

#[test]
fn top_level_non_object_is_a_parse_error() {
    let r = load_settings(&ReadOutcome::Content("[1, 2]".to_string()));
    assert_eq!(r.unwrap_err(), SettingsError::Parse);
}

#[test]
fn timestamp_update_sets_the_field() {
    let base = AppSettings::default();
    let s = apply_setting(&base, "last_update_check", &JsonVal::Str("t1".to_string())).unwrap();
    assert_eq!(s.last_update_check.as_deref(), Some("t1"));
    assert_eq!(s.auto_update_enabled, false);
}

#[test]
fn timestamp_null_is_a_noop() {
    let base = AppSettings {
        auto_update_enabled: false,
        last_update_check: Some("kept".to_string()),
    };
    let s = apply_setting(&base, "last_update_check", &JsonVal::Null).unwrap();
    assert_eq!(s.last_update_check.as_deref(), Some("kept"));
}

#[test]
fn unknown_key_error_carries_the_key() {
    let base = AppSettings::default();
    let r = apply_setting(&base, "theme", &JsonVal::Bool(true));
    assert_eq!(r.unwrap_err(), SettingsError::UnknownKey("theme".to_string()));
}
