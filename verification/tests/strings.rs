//! The shared string utilities.

use kiklet::strutil::{
    dashes_to_colons_str, ends_with_wav, lex_le_str, str_contains, str_eq, strip_wav_str,
    trim_str, trunc200,
};

#[test]
fn trim_removes_surrounding_whitespace_only() {
    assert_eq!(trim_str("  hello  "), "hello");
    assert_eq!(trim_str("\t a b \n"), "a b");
    assert_eq!(trim_str(""), "");
    assert_eq!(trim_str("   "), "");
    assert_eq!(trim_str("x"), "x");
}

#[test]
fn contains_finds_runs_anywhere() {
    assert!(str_contains("ctrl+shift+p", "shift"));
    assert!(str_contains("abc", ""));
    assert!(!str_contains("", "a"));
    assert!(!str_contains("command", "cmda"));
    assert!(str_contains("command", "cmd") == false);
    assert!(str_contains("xcmd", "cmd"));
}

#[test]
fn string_equality_is_by_characters() {
    assert!(str_eq("abc", "abc"));
    assert!(!str_eq("abc", "abd"));
    assert!(!str_eq("abc", "abcd"));
    assert!(str_eq("", ""));
}

#[test]
fn lexicographic_order_matches_string_order() {
    let cases = [
        ("2026-01-01", "2026-01-02"),
        ("", "a"),
        ("abc", "abd"),
        ("ab", "abc"),
        ("A", "a"),
    ];
    for (a, b) in cases {
        assert!(lex_le_str(a, b), "{a} should come before {b}");
        assert!(!lex_le_str(b, a), "{b} should not come before {a}");
        assert_eq!(lex_le_str(a, b), a <= b);
    }
    assert!(lex_le_str("same", "same"));
}

#[test]
fn wav_suffix_detection_needs_a_stem() {
    assert!(ends_with_wav("a.wav"));
    assert!(!ends_with_wav(".wav"));
    assert!(!ends_with_wav("a.WAV"));
    assert!(!ends_with_wav("a.wav.tmp"));
}

#[test]
fn stripping_removes_every_trailing_extension() {
    assert_eq!(strip_wav_str("take.wav"), "take");
    assert_eq!(strip_wav_str("take.wav.wav"), "take");
    assert_eq!(strip_wav_str(".wav"), "");
    assert_eq!(strip_wav_str("take"), "take");
}

#[test]
fn dashes_become_colons() {
    assert_eq!(dashes_to_colons_str("19-53-08"), "19:53:08");
    assert_eq!(dashes_to_colons_str("nodash"), "nodash");
    assert_eq!(dashes_to_colons_str(""), "");
}

#[test]
fn trunc200_flattens_line_breaks_and_caps_length() {
    assert_eq!(trunc200("a\nb\rc"), "a b c");
    let long: String = "x".repeat(300);
    let out = trunc200(&long);
    assert_eq!(out.len(), 200);
    assert_eq!(trunc200("short"), "short");
}

#[test]
fn trunc200_counts_bytes_not_characters() {
    let wide: String = "é".repeat(150);
    let out = trunc200(&wide);
    assert_eq!(out.len(), 200);
    assert_eq!(out.chars().count(), 100);
}

#[test]
fn trunc200_never_cuts_a_character_in_half() {
    let mut tricky: String = "x".repeat(199);
    tricky.push('é');
    tricky.push_str("after");
    let out = trunc200(&tricky);
    assert_eq!(out.len(), 199);
    assert!(out.chars().all(|c| c == 'x'));
}
