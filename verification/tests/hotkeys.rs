//! Hotkey validation and registration bookkeeping.

use kiklet::hotkey::{
    default_hotkey_str, fallback_hotkey_str, get_hotkey, validate_hotkey, HotkeyState,
    RegisterDisposition,
};
use kiklet::settings::Settings;

#[test]
fn empty_hotkey_is_rejected() {
    assert_eq!(validate_hotkey(""), Err("hotkey is empty".to_string()));
    assert_eq!(validate_hotkey("   "), Err("hotkey is empty".to_string()));
}

#[test]
fn overlong_hotkey_is_rejected() {
    let long: String = "x+".repeat(40);
    assert_eq!(validate_hotkey(&long), Err("hotkey is too long".to_string()));
}

#[test]
fn bare_modifiers_are_rejected() {
    for m in ["shift", "Ctrl", "CONTROL", "alt", "cmd", "Command", "option", "win", "super", "meta"]
    {
        assert_eq!(
            validate_hotkey(m),
            Err("hotkey must include a non-modifier key".to_string()),
            "bare modifier {m} must be rejected"
        );
    }
}

#[test]
fn modifier_combos_are_accepted() {
    assert_eq!(validate_hotkey("Ctrl+Shift+Space"), Ok(()));
    assert_eq!(validate_hotkey("CTRL+X"), Ok(()));
    assert_eq!(validate_hotkey("  Cmd+Option+Space  "), Ok(()));
}

#[test]
fn allowed_standalone_keys_are_accepted() {
    for k in ["F5", "insert", "PageUp", "ArrowLeft", "tab", "Space", "enter", "printscreen"] {
        assert_eq!(validate_hotkey(k), Ok(()), "standalone key {k} must be accepted");
    }
}

#[test]
fn single_characters_are_accepted() {
    assert_eq!(validate_hotkey("a"), Ok(()));
    assert_eq!(validate_hotkey("1"), Ok(()));
}

#[test]
fn other_bare_words_are_rejected() {
    assert_eq!(
        validate_hotkey("banana"),
        Err("hotkey must include a non-modifier key or be a valid standalone key".to_string())
    );
}

#[test]
fn default_accelerators() {
    assert_eq!(default_hotkey_str(), "Ctrl+Shift+Space");
    assert_eq!(fallback_hotkey_str(), "Ctrl+Alt+Space");
}

#[test]
fn fresh_state_has_nothing_registered() {
    let s = HotkeyState::default();
    assert!(s.current().is_none());
    assert!(!s.is_enabled());
    assert!(s.last_error.is_none());
}

#[test]
fn accepted_registration_is_recorded() {
    let mut s = HotkeyState::default();
    let d = s.register("Ctrl+Shift+Space".to_string(), true, false);
    assert_eq!(d, RegisterDisposition::Registered);
    assert_eq!(s.current(), Some("Ctrl+Shift+Space".to_string()));
    assert!(s.is_enabled());
}

#[test]
fn rejected_registration_restores_the_previous_hotkey() {
    let mut s = HotkeyState::default();
    s.register("Ctrl+A".to_string(), true, false);
    let d = s.register("Ctrl+B".to_string(), false, true);
    assert_eq!(d, RegisterDisposition::FailedRestored);
    assert_eq!(s.current(), Some("Ctrl+A".to_string()));
}

#[test]
fn rejected_registration_without_rollback_clears() {
    let mut s = HotkeyState::default();
    s.register("Ctrl+A".to_string(), true, false);
    let d = s.register("Ctrl+B".to_string(), false, false);
    assert_eq!(d, RegisterDisposition::FailedCleared);
    assert!(s.current().is_none());
    let d2 = s.register("Ctrl+C".to_string(), false, true);
    assert_eq!(d2, RegisterDisposition::FailedCleared);
}

#[test]
fn unregister_hands_back_the_previous_accelerator() {
    let mut s = HotkeyState::default();
    s.register("Ctrl+A".to_string(), true, false);
    assert_eq!(s.unregister(), Some("Ctrl+A".to_string()));
    assert!(s.current().is_none());
    assert_eq!(s.unregister(), None);
}

#[test]
fn errors_are_recorded_without_touching_the_registration() {
    let mut s = HotkeyState::default();
    s.register("Ctrl+A".to_string(), true, false);
    s.set_error("shortcut already taken".to_string());
    assert_eq!(s.last_error, Some("shortcut already taken".to_string()));
    assert_eq!(s.current(), Some("Ctrl+A".to_string()));
}

#[test]
fn the_effective_hotkey_falls_back_to_the_default() {
    let mut s = Settings::default();
    assert_eq!(get_hotkey(&s), "Ctrl+Shift+Space");
    s.hotkey_accelerator = "   ".to_string();
    assert_eq!(get_hotkey(&s), "Ctrl+Shift+Space");
    s.hotkey_accelerator = "  Cmd+K  ".to_string();
    assert_eq!(get_hotkey(&s), "Cmd+K");
}

#[test]
fn hotkey_lengths_are_counted_in_bytes() {
    // One two-byte character is not a single-byte key.
    assert_eq!(
        validate_hotkey("\u{e9}"),
        Err("hotkey must include a non-modifier key or be a valid standalone key".to_string())
    );
    // Thirty-three two-byte characters pass 64 bytes.
    let wide: String = "\u{e9}".repeat(33);
    assert_eq!(validate_hotkey(&wide), Err("hotkey is too long".to_string()));
}
