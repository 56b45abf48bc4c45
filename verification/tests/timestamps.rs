//! The fixed text renderings of a clock reading.

use kiklet::timefmt::{created_at_for, filename_for, DateTimeParts};

fn parts(
    year: i32,
    month: u8,
    day: u8,
    hour: u8,
    minute: u8,
    second: u8,
) -> DateTimeParts {
    DateTimeParts { year, month, day, hour, minute, second }
}

#[test]
fn filename_renders_zero_padded_local_time() {
    let p = parts(2026, 1, 2, 3, 4, 5);
    assert_eq!(filename_for(&p), "2026-01-02_03-04-05.wav");
}

#[test]
fn filename_keeps_wide_fields_as_they_are() {
    let p = parts(2026, 12, 31, 23, 59, 59);
    assert_eq!(filename_for(&p), "2026-12-31_23-59-59.wav");
}

#[test]
fn created_at_renders_utc_with_zone_marker() {
    let p = parts(2026, 1, 1, 19, 53, 8);
    assert_eq!(created_at_for(&p), "2026-01-01T19:53:08Z");
}

#[test]
fn early_years_are_zero_padded_too() {
    let p = parts(7, 2, 3, 4, 5, 6);
    assert_eq!(filename_for(&p), "0007-02-03_04-05-06.wav");
    assert_eq!(created_at_for(&p), "0007-02-03T04:05:06Z");
}
