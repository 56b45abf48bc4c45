//! The settings model, permission reporting, the overlay state and the
//! delivery fallback.

use kiklet::deliver::{deliver, DeliveryMode};
use kiklet::hud::{is_active, HudState};
use kiklet::perm::{check_permissions, request_accessibility};
use kiklet::settings::{
    default_ptt_enabled, default_ptt_threshold_ms, default_translate_model, get_settings,
    Settings, SettingsStore,
};

#[test]
fn fresh_settings_have_everything_off() {
    let s = Settings::default();
    assert!(!s.autostart_enabled);
    assert!(!s.autoinsert_enabled);
    assert_eq!(s.hotkey_accelerator, "");
    assert!(s.hotkey_code.is_none());
    assert!(s.hotkey_mods.is_none());
    assert!(!s.ptt_enabled);
    assert_eq!(s.ptt_threshold_ms, 0);
    assert_eq!(s.openai_api_key, "");
    assert!(s.translate_target.is_none());
    assert_eq!(s.translate_model, "");
}

#[test]
fn missing_fields_get_these_defaults() {
    assert_eq!(default_translate_model(), "gpt-4o");
    assert!(!default_ptt_enabled());
    assert_eq!(default_ptt_threshold_ms(), 300);
}

#[test]
fn api_keys_are_stored_trimmed() {
    let mut s = Settings::default();
    s.set_openai_api_key("  sk-test-123  ");
    assert_eq!(s.openai_api_key, "sk-test-123");
}

#[test]
fn threshold_zero_disables_push_to_talk() {
    let mut s = Settings::default();
    s.set_ptt_threshold_ms(250);
    assert_eq!(s.ptt_threshold_ms, 250);
    assert!(s.ptt_enabled);
    s.set_ptt_threshold_ms(0);
    assert_eq!(s.ptt_threshold_ms, 0);
    assert!(!s.ptt_enabled);
}

#[test]
fn the_view_reports_whether_a_usable_key_exists() {
    let mut s = Settings::default();
    let dto = get_settings(&s);
    assert!(!dto.has_openai_api_key);
    assert_eq!(dto.openai_api_key, "");
    s.openai_api_key = "   ".to_string();
    assert!(!get_settings(&s).has_openai_api_key);
    s.set_openai_api_key("sk-live");
    let dto = get_settings(&s);
    assert!(dto.has_openai_api_key);
    assert_eq!(dto.openai_api_key, "sk-live");
}

#[test]
fn the_view_copies_the_stored_fields() {
    let mut s = Settings::default();
    s.hotkey_accelerator = "Ctrl+Shift+Space".to_string();
    s.hotkey_code = Some("KeyS".to_string());
    s.translate_target = Some("en".to_string());
    s.translate_model = "gpt-4o".to_string();
    s.set_ptt_threshold_ms(300);
    let dto = get_settings(&s);
    assert_eq!(dto.hotkey_accelerator, "Ctrl+Shift+Space");
    assert_eq!(dto.hotkey_code, Some("KeyS".to_string()));
    assert_eq!(dto.translate_target, Some("en".to_string()));
    assert_eq!(dto.translate_model, "gpt-4o");
    assert!(dto.ptt_enabled);
    assert_eq!(dto.ptt_threshold_ms, 300);
}

#[test]
fn the_settings_file_sits_under_the_data_directory() {
    let store = SettingsStore::new("/data/app");
    assert_eq!(store.path, "/data/app/settings.json");
}

#[test]
fn permissions_are_always_granted_here() {
    let r = check_permissions().unwrap();
    assert!(r.ok);
    assert!(!r.need_accessibility);
    let r = request_accessibility().unwrap();
    assert!(!r.requested);
}

#[test]
fn overlay_activation_steps_the_generation() {
    let mut h = HudState::new();
    assert!(!is_active(&h));
    h.activate();
    assert!(is_active(&h));
    assert_eq!(h.generation, 1);
    h.activate();
    assert_eq!(h.generation, 2);
    h.deactivate();
    assert!(!is_active(&h));
    assert_eq!(h.generation, 2);
}

#[test]
fn delivery_without_a_platform_deliverer_reports_an_unattempted_copy() {
    let r = deliver("hello", true).unwrap();
    assert!(matches!(r.mode, DeliveryMode::Copy));
    assert!(!r.ok);
    assert_eq!(r.detail, Some("unsupported_platform".to_string()));
}
