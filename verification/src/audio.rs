//! The recording session: the caller-visible handle over one capture
//! lifecycle.  Device and thread work happen outside the library; what is
//! decided here, and proved, is the control surface: how the startup
//! handshake resolves into a session or into the exact startup error, and
//! how the shutdown handshake resolves into a finished recording or into the
//! exact shutdown error.  A session is consumed by value when stopped, so a
//! second stop of the same handle cannot be expressed at all.

use vstd::prelude::*;

use crate::timefmt::created_at_chars;
use crate::timefmt::filename_chars;
use crate::timefmt::now_local_fallback_utc;
use crate::timefmt::ClockStamp;
use crate::wav::MAX_CAPTURE_SAMPLES;

verus! {

/// Everything that can go wrong while starting or stopping a capture.
/// Device, stream and resource failures carry the underlying cause verbatim;
/// coordination failures are collapsed into one robust error per case.
#[derive(Clone, Debug, PartialEq, Eq)]
pub enum AudioError {
    /// No default input device is available.
    NoDefaultInputDevice,
    /// The default input configuration could not be queried.
    DefaultInputConfig(String),
    /// The input stream could not be built.
    BuildStream(String),
    /// The input stream could not be started.
    PlayStream(String),
    /// An underlying I/O failure.
    Io(String),
    /// An underlying WAV encoding failure.
    Wav(String),
    /// The device reports samples in a representation the capture does not
    /// handle.
    UnsupportedSampleFormat,
}

/// What the startup handshake delivered: the worker reported that the stream
/// is playing, the worker reported the exact startup failure, or the worker
/// went away without reporting at all.
#[derive(Clone, Debug, PartialEq, Eq)]
pub enum ReadySignal {
    Ready,
    Failed(AudioError),
    Disconnected,
}

/// What the shutdown handshake delivered: the worker finished and reported
/// its final counters, the worker failed while finalizing, or the worker
/// panicked and reported nothing.
#[derive(Clone, Debug, PartialEq, Eq)]
pub enum StopOutcome {
    Finished { samples_written: u64, sample_rate: u32, size_bytes: u64 },
    Failed(AudioError),
    Panicked,
}

/// A recording that has been stopped and finalized.  Duration and size are
/// meaningful precisely because they are computed only after finalization.
#[derive(Clone, Debug, PartialEq, Eq)]
pub struct FinishedRecording {
    pub filename: String,
    pub created_at: String,
    pub samples_written: u64,
    pub sample_rate: u32,
    pub size_bytes: u64,
}

/// The whole seconds-and-milliseconds duration of `samples` samples played
/// at `rate` samples per second; zero when the rate is zero.
pub open spec fn duration_ms_of(samples: int, rate: int) -> int {
    if rate == 0 {
        0
    } else {
        samples * 1000 / rate
    }
}

impl FinishedRecording {
    /// The recording's duration in milliseconds: the number of samples
    /// written divided by the sample rate, zero if the rate is zero.
    pub fn duration_ms(&self) -> (r: u64)
        requires
            self.samples_written <= MAX_CAPTURE_SAMPLES,
        ensures
            r == duration_ms_of(self.samples_written as int, self.sample_rate as int),
    {
        if self.sample_rate == 0 {
            0
        } else {
            (self.samples_written * 1000) / (self.sample_rate as u64)
        }
    }
}

/// The session's identity was taken from one well-formed clock reading: the
/// filename renders its local fields, the creation timestamp its UTC fields.
pub open spec fn session_names_wf(filename: Seq<char>, created_at: Seq<char>) -> bool {
    exists|t: ClockStamp|
        t.wf() && filename == filename_chars(t.local) && created_at == created_at_chars(t.utc)
}

/// The caller-visible handle of one active capture.  It is created only by a
/// successful start and consumed, by value, by `stop`.
#[derive(Debug)]
pub struct RecordingSession {
    filename: String,
    created_at: String,
}

impl RecordingSession {
    /// The name of the output file, `YYYY-MM-DD_HH-MM-SS.wav` in local time.
    pub closed spec fn spec_filename(&self) -> Seq<char> {
        self.filename@
    }

    /// The creation timestamp, `YYYY-MM-DDTHH:MM:SSZ` in UTC.
    pub closed spec fn spec_created_at(&self) -> Seq<char> {
        self.created_at@
    }

    pub fn filename(&self) -> (r: &str)
        ensures
            r@ == self.spec_filename(),
    {
        self.filename.as_str()
    }

    pub fn created_at(&self) -> (r: &str)
        ensures
            r@ == self.spec_created_at(),
    {
        self.created_at.as_str()
    }

    /// Resolves the startup handshake.  A session comes back exactly when
    /// the worker reported readiness; a reported failure is returned
    /// verbatim; a worker that vanished without reporting becomes the one
    /// robust initialization error.
    pub fn start(ready: ReadySignal) -> (r: Result<RecordingSession, AudioError>)
        ensures
            r is Ok <==> ready == ReadySignal::Ready,
            r matches Ok(s) ==> session_names_wf(s.spec_filename(), s.spec_created_at()),
            ready matches ReadySignal::Failed(e) ==> r == Err::<RecordingSession, AudioError>(e),
            ready == ReadySignal::Disconnected ==> (r matches Err(e) && e matches AudioError::Io(m)
                && m@ == "recording thread failed to initialize"@),
    {
        match ready {
            ReadySignal::Ready => {
                let stamp = now_local_fallback_utc();
                let filename = crate::timefmt::filename_for(&stamp.local);
                let created_at = crate::timefmt::created_at_for(&stamp.utc);
                proof {
                    assert(stamp.wf() && filename@ == filename_chars(stamp.local) && created_at@
                        == created_at_chars(stamp.utc));
                }
                Ok(RecordingSession { filename, created_at })
            },
            ReadySignal::Failed(e) => Err(e),
            ReadySignal::Disconnected => Err(
                AudioError::Io(String::from_str("recording thread failed to initialize")),
            ),
        }
    }

    /// Resolves the shutdown handshake, consuming the session: a finished
    /// worker yields the recording under the session's identity, a reported
    /// failure is returned verbatim, and a panicked worker becomes the one
    /// robust panic error.
    pub fn stop(self, outcome: StopOutcome) -> (r: Result<FinishedRecording, AudioError>)
        ensures
            r is Ok <==> outcome is Finished,
            outcome matches StopOutcome::Finished { samples_written, sample_rate, size_bytes }
                ==> (r matches Ok(f) && f.filename@ == self.spec_filename() && f.created_at@
                == self.spec_created_at() && f.samples_written == samples_written && f.sample_rate
                == sample_rate && f.size_bytes == size_bytes),
            outcome matches StopOutcome::Failed(e) ==> r == Err::<FinishedRecording, AudioError>(
                e,
            ),
            outcome == StopOutcome::Panicked ==> (r matches Err(e) && e matches AudioError::Io(m)
                && m@ == "recording thread panicked"@),
    {
        match outcome {
            StopOutcome::Finished { samples_written, sample_rate, size_bytes } => Ok(
                FinishedRecording {
                    filename: self.filename,
                    created_at: self.created_at,
                    samples_written,
                    sample_rate,
                    size_bytes,
                },
            ),
            StopOutcome::Failed(e) => Err(e),
            StopOutcome::Panicked => Err(
                AudioError::Io(String::from_str("recording thread panicked")),
            ),
        }
    }
}

/// Begins a session from the startup handshake's outcome.
pub fn start_recording(ready: ReadySignal) -> (r: Result<RecordingSession, AudioError>)
    ensures
        r is Ok <==> ready == ReadySignal::Ready,
        r matches Ok(s) ==> session_names_wf(s.spec_filename(), s.spec_created_at()),
        ready matches ReadySignal::Failed(e) ==> r == Err::<RecordingSession, AudioError>(e),
        ready == ReadySignal::Disconnected ==> (r matches Err(e) && e matches AudioError::Io(m)
            && m@ == "recording thread failed to initialize"@),
{
    RecordingSession::start(ready)
}

/// Ends a session from the shutdown handshake's outcome, consuming it.
pub fn stop_recording(active: RecordingSession, outcome: StopOutcome) -> (r: Result<
    FinishedRecording,
    AudioError,
>)
    ensures
        r is Ok <==> outcome is Finished,
        outcome matches StopOutcome::Finished { samples_written, sample_rate, size_bytes } ==> (
        r matches Ok(f) && f.filename@ == active.spec_filename() && f.created_at@
            == active.spec_created_at() && f.samples_written == samples_written && f.sample_rate
            == sample_rate && f.size_bytes == size_bytes),
        outcome matches StopOutcome::Failed(e) ==> r == Err::<FinishedRecording, AudioError>(e),
        outcome == StopOutcome::Panicked ==> (r matches Err(e) && e matches AudioError::Io(m) && m@
            == "recording thread panicked"@),
{
    active.stop(outcome)
}

} // verus!
