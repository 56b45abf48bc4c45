//! The capture writer and the WAV images it finalizes, read back with the
//! real decoder.

use std::io::Cursor;

use kiklet::writer::CaptureWriter;

#[test]
fn empty_capture_finalizes_to_valid_header_only_file() {
    let mut w = CaptureWriter::new(16000);
    let bytes = w.finalize().expect("first finalize returns the image");
    assert_eq!(bytes.len(), 44);
    let reader = hound::WavReader::new(Cursor::new(bytes)).expect("image must parse");
    let spec = reader.spec();
    assert_eq!(spec.channels, 1);
    assert_eq!(spec.sample_rate, 16000);
    assert_eq!(spec.bits_per_sample, 16);
    assert_eq!(spec.sample_format, hound::SampleFormat::Int);
    assert_eq!(reader.len(), 0);
}

#[test]
fn finalize_closes_exactly_once() {
    let mut w = CaptureWriter::new(8000);
    assert!(w.write_one(5));
    assert!(w.finalize().is_some());
    assert!(w.finalize().is_none());
}

#[test]
fn writes_after_finalize_are_silent_no_ops() {
    let mut w = CaptureWriter::new(8000);
    assert!(w.write_one(1));
    let _ = w.finalize();
    assert!(!w.write_one(2));
    let block: Vec<i16> = vec![3, 4, 5];
    w.write_block(&block, 1);
    assert_eq!(w.samples_written(), 1);
}

#[test]
fn counter_tracks_each_stored_sample() {
    let mut w = CaptureWriter::new(44100);
    assert_eq!(w.samples_written(), 0);
    for k in 0..100i16 {
        assert!(w.write_one(k));
        assert_eq!(w.samples_written(), (k + 1) as u64);
    }
}

#[test]
fn samples_round_trip_through_the_image() {
    let mut w = CaptureWriter::new(22050);
    let block: Vec<i16> = vec![0, 100, -100, 32767, -32768];
    w.write_block(&block, 1);
    let bytes = w.finalize().unwrap();
    assert_eq!(bytes.len(), 44 + 2 * 5);
    let mut reader = hound::WavReader::new(Cursor::new(bytes)).unwrap();
    let got: Vec<i16> = reader.samples::<i16>().map(|s| s.unwrap()).collect();
    assert_eq!(got, block);
}

#[test]
fn stereo_blocks_keep_the_first_of_each_frame() {
    let mut w = CaptureWriter::new(48000);
    let block: Vec<i16> = vec![10, -1, 20, -2, 30, -3];
    w.write_block(&block, 2);
    assert_eq!(w.samples_written(), 3);
    let bytes = w.finalize().unwrap();
    let mut reader = hound::WavReader::new(Cursor::new(bytes)).unwrap();
    let got: Vec<i16> = reader.samples::<i16>().map(|s| s.unwrap()).collect();
    assert_eq!(got, vec![10, 20, 30]);
}

#[test]
fn ragged_tail_still_takes_the_leading_sample() {
    let mut w = CaptureWriter::new(48000);
    let block: Vec<i16> = vec![10, -1, 20];
    w.write_block(&block, 2);
    assert_eq!(w.samples_written(), 2);
}

#[test]
fn u16_blocks_are_normalized_before_storage() {
    let mut w = CaptureWriter::new(8000);
    let block: Vec<u16> = vec![0, 32768, 65535];
    w.write_block(&block, 1);
    let bytes = w.finalize().unwrap();
    let mut reader = hound::WavReader::new(Cursor::new(bytes)).unwrap();
    let got: Vec<i16> = reader.samples::<i16>().map(|s| s.unwrap()).collect();
    assert_eq!(got, vec![-32768, 0, 32767]);
}

#[test]
fn fixed_blocks_are_clamped_and_scaled() {
    let mut w = CaptureWriter::new(8000);
    let one = 0x100_0000i64;
    let block: Vec<i64> = vec![one, -one, 3 * one, 0];
    w.write_block(&block, 1);
    let bytes = w.finalize().unwrap();
    let mut reader = hound::WavReader::new(Cursor::new(bytes)).unwrap();
    let got: Vec<i16> = reader.samples::<i16>().map(|s| s.unwrap()).collect();
    assert_eq!(got, vec![32767, -32768, 32767, 0]);
}

#[test]
fn a_zero_rate_stream_closes_without_an_image() {
    let mut w = CaptureWriter::new(0);
    assert!(w.write_one(5));
    assert!(w.finalize().is_none());
    assert!(!w.write_one(6));
    assert!(w.finalize().is_none());
    assert_eq!(w.samples_written(), 1);
}

#[test]
fn an_oversized_rate_closes_without_an_image() {
    let mut w = CaptureWriter::new(u32::MAX);
    assert!(w.finalize().is_none());
}
