//! Filtering and ordering the provider's model catalogue.

use kiklet::models::{filter_chat_models, sort_models_preferred_first, translation_prompt};

fn strings(v: &[&str]) -> Vec<String> {
    v.iter().map(|s| s.to_string()).collect()
}

#[test]
fn special_purpose_models_are_dropped() {
    let ids = strings(&[
        "gpt-4o",
        "whisper-1",
        "dall-e-3",
        "tts-1",
        "text-embedding-3-small",
        "omni-moderation-latest",
        "gpt-4o-realtime-preview",
        "gpt-4o-audio-preview",
        "sora-2",
        "gpt-image-1",
    ]);
    assert_eq!(filter_chat_models(ids), strings(&["gpt-4o"]));
}

#[test]
fn chat_families_are_kept() {
    let ids = strings(&["gpt-4.1", "o3", "o1-mini", "text-davinci-003", "gpt-3.5-turbo"]);
    assert_eq!(
        filter_chat_models(ids),
        strings(&["gpt-4.1", "o3", "o1-mini", "text-davinci-003", "gpt-3.5-turbo"])
    );
}

#[test]
fn unrelated_names_are_dropped() {
    let ids = strings(&["babbage-002", "davinci-002", "omega", "o-mega", "GPT-4o"]);
    assert!(filter_chat_models(ids).is_empty());
}

#[test]
fn case_insensitive_denial_is_applied() {
    let ids = strings(&["gpt-4o-AUDIO-preview"]);
    assert!(filter_chat_models(ids).is_empty());
}

#[test]
fn preferred_families_sort_first_then_alphabetical() {
    let ids = strings(&["o3", "gpt-4o-mini", "gpt-4.1-nano", "gpt-4o", "gpt-4.1", "gpt-3.5"]);
    assert_eq!(
        sort_models_preferred_first(ids),
        strings(&["gpt-4.1", "gpt-4.1-nano", "gpt-4o", "gpt-4o-mini", "gpt-3.5", "o3"])
    );
}

#[test]
fn sorting_keeps_every_model() {
    let ids = strings(&["b", "a", "b"]);
    assert_eq!(sort_models_preferred_first(ids), strings(&["a", "b", "b"]));
}

#[test]
fn the_translation_prompt_frames_language_and_text() {
    let p = translation_prompt("French", "good morning");
    assert_eq!(
        p,
        "Translate the following text to French. Return only the translated text.\n\nTEXT:\ngood morning"
    );
}
