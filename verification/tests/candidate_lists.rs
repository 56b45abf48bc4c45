//! Accelerator candidate generation for the shortcut service.

use kiklet::candidates::{generate_hotkey_candidates_from_code, plugin_key_candidates_from_code};
use kiklet::settings::HotkeyMods;

fn mods(cmd: bool, ctrl: bool, alt: bool, shift: bool) -> HotkeyMods {
    HotkeyMods { cmd, ctrl, alt, shift }
}

#[test]
fn digit_codes_offer_every_spelling() {
    assert_eq!(plugin_key_candidates_from_code("Digit1"), vec!["1", "Digit1", "Key1", "Numpad1"]);
    assert_eq!(plugin_key_candidates_from_code("1"), vec!["1", "Digit1", "Key1", "Numpad1"]);
    assert_eq!(plugin_key_candidates_from_code("Digit0"), vec!["0", "Digit0", "Key0", "Numpad0"]);
}

#[test]
fn letter_codes_offer_letter_and_code() {
    assert_eq!(plugin_key_candidates_from_code("KeyS"), vec!["S", "KeyS"]);
    assert_eq!(plugin_key_candidates_from_code("KeyQ"), vec!["Q", "KeyQ"]);
}

#[test]
fn special_keys_offer_their_aliases() {
    assert_eq!(plugin_key_candidates_from_code("Insert"), vec!["Insert", "Ins"]);
    assert_eq!(plugin_key_candidates_from_code("PageUp"), vec!["PageUp", "Prior"]);
    assert_eq!(plugin_key_candidates_from_code("ArrowLeft"), vec!["ArrowLeft", "Left"]);
    assert_eq!(plugin_key_candidates_from_code("Space"), vec!["Space"]);
    assert_eq!(plugin_key_candidates_from_code("F12"), vec!["F12"]);
}

#[test]
fn recognizable_unknown_codes_stand_for_themselves() {
    assert_eq!(plugin_key_candidates_from_code("F13"), vec!["F13"]);
    assert_eq!(plugin_key_candidates_from_code("KeyÉ"), vec!["KeyÉ"]);
}

#[test]
fn unusable_codes_yield_no_candidate() {
    assert!(plugin_key_candidates_from_code("MediaPlay").is_empty());
    assert!(plugin_key_candidates_from_code("").is_empty());
}

#[test]
fn combos_put_the_modifiers_in_front() {
    let got = generate_hotkey_candidates_from_code("Digit1", &mods(true, false, false, true));
    assert_eq!(
        got,
        vec!["Cmd+Shift+1", "Cmd+Shift+Digit1", "Cmd+Shift+Key1", "Cmd+Shift+Numpad1"]
    );
    let got = generate_hotkey_candidates_from_code("KeyS", &mods(false, true, true, false));
    assert_eq!(got, vec!["Ctrl+Alt+S", "Ctrl+Alt+KeyS"]);
}

#[test]
fn without_modifiers_the_key_stands_alone() {
    let got = generate_hotkey_candidates_from_code("Insert", &mods(false, false, false, false));
    assert_eq!(got, vec!["Insert", "Ins"]);
}

#[test]
fn unusable_codes_yield_no_combo_either() {
    let got = generate_hotkey_candidates_from_code("MediaPlay", &mods(true, false, false, false));
    assert!(got.is_empty());
}
