//! The virtual-key tables behind the push-to-talk poller and the
//! hold-to-record trackers.

use kiklet::hotkey_ptt;
use kiklet::hotkey_tracker;

#[test]
fn poller_table_rows_map_as_listed() {
    assert_eq!(hotkey_ptt::code_to_vk("KeyA"), Some(0));
    assert_eq!(hotkey_ptt::code_to_vk("KeyS"), Some(1));
    assert_eq!(hotkey_ptt::code_to_vk("Space"), Some(49));
    assert_eq!(hotkey_ptt::code_to_vk("F1"), Some(122));
    assert_eq!(hotkey_ptt::code_to_vk("F24"), Some(86));
    assert_eq!(hotkey_ptt::code_to_vk("Delete"), Some(117));
}

#[test]
fn poller_digit_codes_are_read_numerically() {
    assert_eq!(hotkey_ptt::code_to_vk("Digit1"), Some(19));
    assert_eq!(hotkey_ptt::code_to_vk("Digit0"), Some(18));
    assert_eq!(hotkey_ptt::code_to_vk("Digit+7"), Some(25));
    assert_eq!(hotkey_ptt::code_to_vk("Digit"), None);
    assert_eq!(hotkey_ptt::code_to_vk("Digitx"), None);
    assert_eq!(hotkey_ptt::code_to_vk("Digit99999"), None);
}

#[test]
fn poller_unknown_letters_fall_back_alphabetically() {
    // Every letter has a table row, so the alphabetic fallback only sees
    // codes that are not letters.
    assert_eq!(hotkey_ptt::code_to_vk("Key\u{e9}"), None);
    assert_eq!(hotkey_ptt::code_to_vk("Keyab"), None);
    assert_eq!(hotkey_ptt::code_to_vk("Key9x"), None);
    assert_eq!(hotkey_ptt::code_to_vk("MediaPlay"), None);
}

#[test]
fn tracker_table_rows_map_as_listed() {
    assert_eq!(hotkey_tracker::code_to_vk("KeyA"), Some(0x41));
    assert_eq!(hotkey_tracker::code_to_vk("KeyZ"), Some(0x5A));
    assert_eq!(hotkey_tracker::code_to_vk("Digit1"), Some(0x31));
    assert_eq!(hotkey_tracker::code_to_vk("1"), Some(0x31));
    assert_eq!(hotkey_tracker::code_to_vk("Space"), Some(0x20));
    assert_eq!(hotkey_tracker::code_to_vk("F12"), Some(0x7B));
}

#[test]
fn tracker_digit_fallback_offsets_from_the_digit_row() {
    assert_eq!(hotkey_tracker::code_to_vk("Digit12"), Some(0x30 + 12));
    assert_eq!(hotkey_tracker::code_to_vk("Digitx"), None);
}

#[test]
fn tracker_key_fallback_upper_folds_single_bytes() {
    assert_eq!(hotkey_tracker::code_to_vk("Key;"), Some(b';' as u32));
    assert_eq!(hotkey_tracker::code_to_vk("Key\u{e9}"), None);
    assert_eq!(hotkey_tracker::code_to_vk("Keyab"), None);
    assert_eq!(hotkey_tracker::code_to_vk("NumpadAdd"), None);
}

#[test]
fn positional_table_includes_punctuation_rows() {
    assert_eq!(hotkey_tracker::code_to_vk_mac("Equal"), Some(24));
    assert_eq!(hotkey_tracker::code_to_vk_mac("Minus"), Some(27));
    assert_eq!(hotkey_tracker::code_to_vk_mac("Backquote"), Some(50));
    assert_eq!(hotkey_tracker::code_to_vk_mac("KeyA"), Some(0));
    assert_eq!(hotkey_tracker::code_to_vk_mac("F12"), Some(111));
    assert_eq!(hotkey_tracker::code_to_vk_mac("F13"), None);
}
