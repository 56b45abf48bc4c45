//! The recordings index: paths, entry derivation, ordering, purge and
//! clear decisions.

use kiklet::storage::{
    clone_entry, count_wav_files, fallback_created_at_from_stem, filename_to_created_at,
    index_filename, index_snapshot, recordings_dirname, remove_entry, sort_entries_newest_first,
    scan_entry, RecordingEntry, Storage,
};
use kiklet::writer::CaptureWriter;

fn entry(filename: &str, created_at: &str) -> RecordingEntry {
    RecordingEntry {
        id: filename.trim_end_matches(".wav").to_string(),
        filename: filename.to_string(),
        created_at: created_at.to_string(),
        duration_ms: 1000,
        size_bytes: 2044,
    }
}

#[test]
fn storage_paths_hang_off_the_data_directory() {
    let s = Storage::new("/data/app");
    assert_eq!(s.app_data_dir, "/data/app");
    assert_eq!(s.recordings_folder(), "/data/app/recordings");
    assert_eq!(s.index_path, "/data/app/recordings.json");
    assert_eq!(s.recording_path("take.wav"), "/data/app/recordings/take.wav");
    assert_eq!(index_filename(), "recordings.json");
    assert_eq!(recordings_dirname(), "recordings");
}

#[test]
fn created_at_is_recovered_from_the_stem() {
    assert_eq!(filename_to_created_at("2026-01-01_19-53-08.wav"), "2026-01-01T19:53:08");
    assert_eq!(fallback_created_at_from_stem("2026-01-01_19-53-08"), "2026-01-01T19:53:08");
    assert_eq!(fallback_created_at_from_stem("no-underscore"), "no-underscore");
    assert_eq!(filename_to_created_at("odd_name.wav"), "oddTname");
}

#[test]
fn scanning_a_real_image_recovers_rate_and_duration() {
    let mut w = CaptureWriter::new(8000);
    let block: Vec<i16> = vec![7; 16000];
    w.write_block(&block, 1);
    let bytes = w.finalize().unwrap();
    let size = bytes.len() as u64;
    let e = scan_entry("2026-01-01_10-00-00.wav", size, &bytes).expect("a WAV image must scan");
    assert_eq!(e.filename, "2026-01-01_10-00-00.wav");
    assert_eq!(e.id, "2026-01-01_10-00-00");
    assert_eq!(e.created_at, "2026-01-01T10:00:00");
    assert_eq!(e.duration_ms, 2000);
    assert_eq!(e.size_bytes, size);
}

#[test]
fn non_wav_names_and_bad_bytes_scan_to_nothing() {
    let mut w = CaptureWriter::new(8000);
    let bytes = w.finalize().unwrap();
    assert!(scan_entry("notes.txt", 10, &bytes).is_none());
    let garbage: Vec<u8> = vec![1, 2, 3, 4, 5, 6, 7, 8];
    assert!(scan_entry("a.wav", 8, &garbage).is_none());
}

#[test]
fn sorting_puts_newest_filenames_first() {
    let v = vec![
        entry("2026-01-01_10-00-00.wav", "2026-01-01T10:00:00Z"),
        entry("2026-03-01_09-00-00.wav", "2026-03-01T09:00:00Z"),
        entry("2025-12-31_23-59-59.wav", "2025-12-31T23:59:59Z"),
        entry("2026-03-01_08-00-00.wav", "2026-03-01T08:00:00Z"),
    ];
    let sorted = sort_entries_newest_first(v);
    let names: Vec<&str> = sorted.iter().map(|e| e.filename.as_str()).collect();
    assert_eq!(
        names,
        vec![
            "2026-03-01_09-00-00.wav",
            "2026-03-01_08-00-00.wav",
            "2026-01-01_10-00-00.wav",
            "2025-12-31_23-59-59.wav",
        ]
    );
}

#[test]
fn purge_drops_entries_older_than_the_cutoff() {
    let storage = Storage::new("/data/app");
    let old = entry("2020-01-01_00-00-00.wav", "2020-01-01T00:00:00Z");
    let recent = entry("2026-01-01_00-00-00.wav", "2026-01-01T00:00:00Z");
    let entries = vec![old, recent];
    // Ten days past 2026-01-01T00:00:00Z, keeping thirty days back.
    let now = 1767225600 + 10 * 86400;
    let (keep, deleted) = storage.purge_old_recordings(&entries, now, 30);
    assert_eq!(deleted, 1);
    assert_eq!(keep.len(), 1);
    assert_eq!(keep[0].filename, "2026-01-01_00-00-00.wav");
}

#[test]
fn purge_fails_closed_on_unreadable_timestamps() {
    let storage = Storage::new("/data/app");
    let bad = entry("x.wav", "not a timestamp");
    let (keep, deleted) = storage.purge_old_recordings(&vec![bad], 1767225600, 30);
    assert_eq!(deleted, 1);
    assert!(keep.is_empty());
}

#[test]
fn purge_reads_legacy_zoneless_timestamps() {
    let storage = Storage::new("/data/app");
    let legacy = entry("2026-01-01_00-00-00.wav", "2026-01-01T00:00:00");
    let now = 1767225600 + 10 * 86400;
    // The legacy reading depends on the machine's zone by at most a day;
    // a thirty-day window keeps it either way.
    let (keep, deleted) = storage.purge_old_recordings(&vec![legacy], now, 30);
    assert_eq!(deleted, 0);
    assert_eq!(keep.len(), 1);
}

#[test]
fn purge_of_nothing_deletes_nothing() {
    let storage = Storage::new("/data/app");
    let (keep, deleted) = storage.purge_old_recordings(&vec![], 1767225600, 7);
    assert!(keep.is_empty());
    assert_eq!(deleted, 0);
}

#[test]
fn clear_plans_index_files_then_orphans() {
    let storage = Storage::new("/data/app");
    let index = vec![
        entry("a.wav", "2026-01-01T00:00:00Z"),
        entry("b.wav", "2026-01-02T00:00:00Z"),
    ];
    let on_disk = vec!["b.wav".to_string(), "c.wav".to_string()];
    let plan = storage.clear_all_recordings(&index, &on_disk);
    assert_eq!(plan, vec!["a.wav".to_string(), "b.wav".to_string(), "c.wav".to_string()]);
}

#[test]
fn clear_of_empty_state_plans_nothing() {
    let storage = Storage::new("/data/app");
    let plan = storage.clear_all_recordings(&vec![], &vec![]);
    assert!(plan.is_empty());
}

#[test]
fn wav_files_are_counted_by_extension() {
    let names = vec![
        "a.wav".to_string(),
        "b.txt".to_string(),
        ".wav".to_string(),
        "x.wav.tmp".to_string(),
        "c.wav".to_string(),
    ];
    assert_eq!(count_wav_files(&names), 2);
}

#[test]
fn snapshots_carry_format_version_one() {
    let idx = index_snapshot(vec![entry("a.wav", "2026-01-01T00:00:00Z")]);
    assert_eq!(idx.version, 1);
    assert_eq!(idx.recordings.len(), 1);
}

#[test]
fn cloning_an_entry_copies_every_field() {
    let e = entry("a.wav", "2026-01-01T00:00:00Z");
    let c = clone_entry(&e);
    assert_eq!(c.id, e.id);
    assert_eq!(c.filename, e.filename);
    assert_eq!(c.created_at, e.created_at);
    assert_eq!(c.duration_ms, e.duration_ms);
    assert_eq!(c.size_bytes, e.size_bytes);
}

#[test]
fn removing_a_recording_drops_every_entry_of_that_name() {
    let entries = vec![
        entry("a.wav", "2026-01-01T00:00:00Z"),
        entry("b.wav", "2026-01-02T00:00:00Z"),
        entry("a.wav", "2026-01-03T00:00:00Z"),
    ];
    let left = remove_entry(&entries, "a.wav");
    assert_eq!(left.len(), 1);
    assert_eq!(left[0].filename, "b.wav");
    let untouched = remove_entry(&entries, "c.wav");
    assert_eq!(untouched.len(), 3);
}
