//! Sample normalization: extremes, re-centering, and clamping.

use kiklet::sample::{fixed_to_i16, u16_to_i16, FIXED_ONE};
use kiklet::writer::NativeSample;

fn fixed_of(x: f32) -> i64 {
    (x * FIXED_ONE as f32) as i64
}

#[test]
fn u16_extremes_map_to_canonical_extremes() {
    assert_eq!(u16_to_i16(0), -32768);
    assert_eq!(u16_to_i16(65535), 32767);
}

#[test]
fn u16_midpoint_maps_to_zero() {
    assert_eq!(u16_to_i16(32768), 0);
    assert_eq!(u16_to_i16(32767), -1);
}

#[test]
fn i16_passes_through_unchanged() {
    assert_eq!(32767i16.normalize(), 32767);
    assert_eq!((-32768i16).normalize(), -32768);
    assert_eq!(0i16.normalize(), 0);
    assert_eq!((-17i16).normalize(), -17);
}

#[test]
fn unity_gain_maps_to_canonical_extremes() {
    assert_eq!(fixed_to_i16(fixed_of(1.0)), 32767);
    assert_eq!(fixed_to_i16(fixed_of(-1.0)), -32768);
}

#[test]
fn zero_maps_to_zero() {
    assert_eq!(fixed_to_i16(0), 0);
}

#[test]
fn half_gain_scales_linearly() {
    assert_eq!(fixed_to_i16(fixed_of(0.5)), 16383);
    assert_eq!(fixed_to_i16(fixed_of(-0.5)), -16384);
}

#[test]
fn out_of_range_input_clamps_high() {
    assert_eq!(fixed_to_i16(fixed_of(1.5)), 32767);
    assert_eq!(fixed_to_i16(fixed_of(100.0)), 32767);
    assert_eq!(fixed_to_i16(i64::MAX), 32767);
}

#[test]
fn out_of_range_input_clamps_low() {
    assert_eq!(fixed_to_i16(fixed_of(-2.0)), -32768);
    assert_eq!(fixed_to_i16(fixed_of(-100.0)), -32768);
    assert_eq!(fixed_to_i16(i64::MIN), -32768);
}

#[test]
fn native_sample_trait_agrees_with_free_functions() {
    assert_eq!(0u16.normalize(), u16_to_i16(0));
    assert_eq!(65535u16.normalize(), u16_to_i16(65535));
    assert_eq!(fixed_of(1.0).normalize(), fixed_to_i16(fixed_of(1.0)));
    assert_eq!(fixed_of(-2.0).normalize(), fixed_to_i16(fixed_of(-2.0)));
}
