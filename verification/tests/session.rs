//! The recording session's startup and shutdown handshakes, and the
//! end-to-end shape of a finished recording.

use std::io::Cursor;

use kiklet::audio::{
    start_recording, stop_recording, AudioError, ReadySignal, StopOutcome,
};
use kiklet::writer::CaptureWriter;

fn is_timestamp_filename(name: &str) -> bool {
    let b: Vec<char> = name.chars().collect();
    if b.len() != 23 {
        return false;
    }
    for (i, c) in b.iter().enumerate() {
        let ok = match i {
            4 | 7 | 13 | 16 => *c == '-',
            10 => *c == '_',
            19 => *c == '.',
            20 => *c == 'w',
            21 => *c == 'a',
            22 => *c == 'v',
            _ => c.is_ascii_digit(),
        };
        if !ok {
            return false;
        }
    }
    true
}

#[test]
fn start_failure_returns_the_reported_error() {
    let r = start_recording(ReadySignal::Failed(AudioError::NoDefaultInputDevice));
    assert!(matches!(r, Err(AudioError::NoDefaultInputDevice)));
    let r = start_recording(ReadySignal::Failed(AudioError::UnsupportedSampleFormat));
    assert!(matches!(r, Err(AudioError::UnsupportedSampleFormat)));
    let r = start_recording(ReadySignal::Failed(AudioError::BuildStream("boom".to_string())));
    assert!(matches!(r, Err(AudioError::BuildStream(m)) if m == "boom"));
}

#[test]
fn vanished_worker_becomes_the_initialization_error() {
    let r = start_recording(ReadySignal::Disconnected);
    match r {
        Err(AudioError::Io(m)) => assert_eq!(m, "recording thread failed to initialize"),
        other => panic!("expected the initialization error, got {:?}", other),
    }
}

#[test]
fn ready_worker_yields_a_session_with_timestamp_identity() {
    let s = start_recording(ReadySignal::Ready).expect("ready worker yields a session");
    assert!(
        is_timestamp_filename(s.filename()),
        "filename does not match the timestamp pattern: {}",
        s.filename()
    );
    let c: Vec<char> = s.created_at().chars().collect();
    assert_eq!(c.len(), 20);
    assert_eq!(c[4], '-');
    assert_eq!(c[7], '-');
    assert_eq!(c[10], 'T');
    assert_eq!(c[13], ':');
    assert_eq!(c[16], ':');
    assert_eq!(c[19], 'Z');
}

#[test]
fn panicked_worker_becomes_the_panic_error() {
    let s = start_recording(ReadySignal::Ready).unwrap();
    match stop_recording(s, StopOutcome::Panicked) {
        Err(AudioError::Io(m)) => assert_eq!(m, "recording thread panicked"),
        other => panic!("expected the panic error, got {:?}", other),
    }
}

#[test]
fn failed_finalize_is_returned_verbatim() {
    let s = start_recording(ReadySignal::Ready).unwrap();
    let r = stop_recording(s, StopOutcome::Failed(AudioError::Wav("short write".to_string())));
    assert!(matches!(r, Err(AudioError::Wav(m)) if m == "short write"));
}

#[test]
fn zero_sample_session_finishes_with_zero_duration() {
    let s = start_recording(ReadySignal::Ready).unwrap();
    let filename = s.filename().to_string();
    let created_at = s.created_at().to_string();
    let f = stop_recording(
        s,
        StopOutcome::Finished { samples_written: 0, sample_rate: 16000, size_bytes: 44 },
    )
    .expect("a finished worker yields the recording");
    assert_eq!(f.filename, filename);
    assert_eq!(f.created_at, created_at);
    assert_eq!(f.duration_ms(), 0);
    assert_eq!(f.size_bytes, 44);
}

#[test]
fn duration_is_samples_over_rate() {
    let s = start_recording(ReadySignal::Ready).unwrap();
    let f = stop_recording(
        s,
        StopOutcome::Finished { samples_written: 48000, sample_rate: 16000, size_bytes: 96044 },
    )
    .unwrap();
    assert_eq!(f.duration_ms(), 3000);
    let seconds = f.duration_ms() as f64 / 1000.0;
    assert!((seconds - 48000.0 / 16000.0).abs() < 1e-9);
}

#[test]
fn zero_rate_means_zero_duration_not_a_fault() {
    let s = start_recording(ReadySignal::Ready).unwrap();
    let f = stop_recording(
        s,
        StopOutcome::Finished { samples_written: 500, sample_rate: 0, size_bytes: 1044 },
    )
    .unwrap();
    assert_eq!(f.duration_ms(), 0);
}

#[test]
fn three_seconds_of_unity_gain_end_to_end() {
    let session = start_recording(ReadySignal::Ready).unwrap();
    let mut w = CaptureWriter::new(16000);
    let chunk: Vec<i64> = vec![(1.0f32 * 16777216.0) as i64; 480];
    for _ in 0..100 {
        w.write_block(&chunk, 1);
    }
    assert_eq!(w.samples_written(), 48000);
    let samples = w.samples_written();
    let bytes = w.finalize().unwrap();
    assert!(bytes.len() > 44);
    assert_eq!(bytes.len(), 44 + 2 * 48000);
    let mut reader = hound::WavReader::new(Cursor::new(&bytes[..])).expect("image must parse");
    assert_eq!(reader.spec().sample_rate, 16000);
    assert_eq!(reader.len(), 48000);
    assert!(reader.samples::<i16>().all(|s| s.unwrap() == 32767));
    assert!(is_timestamp_filename(session.filename()));
    let f = stop_recording(
        session,
        StopOutcome::Finished {
            samples_written: samples,
            sample_rate: 16000,
            size_bytes: bytes.len() as u64,
        },
    )
    .unwrap();
    let seconds = f.duration_ms() as f64 / 1000.0;
    assert!((seconds - 3.0).abs() < 1e-9);
    assert!(f.size_bytes > 44);
}
