//! The WAV container, reached through the `hound` encoder.  The library keeps
//! samples as plain values and only crosses into `hound` to turn a finished
//! sequence of canonical samples into a complete in-memory WAV image, or to
//! read the stream parameters back out of one.

use vstd::prelude::*;

verus! {

/// The number of bytes of a mono 16-bit PCM WAV header.
pub const WAV_HEADER_BYTES: u64 = 44;

/// The most samples one capture may hold; keeps every size field of the WAV
/// container inside its 32-bit limits.
pub const MAX_CAPTURE_SAMPLES: u64 = 0x3FFF_FFFF;

/// The sample rates the container can carry here: positive (the header
/// stores the block alignment as bytes-per-second divided by the rate), and
/// small enough that the bytes-per-second field (two bytes per sample, one
/// channel) stays inside its 32 bits.
pub open spec fn encodable_rate(sample_rate: u32) -> bool {
    1 <= sample_rate <= 0x7FFF_FFFF
}

/// Whether the container can carry this sample rate.
pub fn is_encodable_rate(sample_rate: u32) -> (r: bool)
    ensures
        r == encodable_rate(sample_rate),
{
    1 <= sample_rate && sample_rate <= 0x7FFF_FFFF
}

/// The complete WAV image that `hound` produces for a mono 16-bit PCM stream
/// at `sample_rate` holding exactly `samples`.
pub uninterp spec fn wav_encoding(sample_rate: u32, samples: Seq<i16>) -> Seq<u8>;

/// The stream parameters `hound` reads back from a WAV image: channel count,
/// sample rate and total sample count, or nothing when the bytes do not parse
/// as a WAV stream.
pub uninterp spec fn wav_info_of(bytes: Seq<u8>) -> Option<(u16, u32, u32)>;

/// Relies on `hound::WavWriter::{new, write_sample, finalize}` over an
/// in-memory cursor: encoding mono 16-bit integer PCM yields a 44-byte header
/// followed by each sample as two bytes, and cannot fail for an in-memory
/// writer while the data size stays inside the container's 32-bit fields.
/// The rate must be one the container carries: the header write divides by
/// it and multiplies it by the sample width.
#[verifier::external_body]
pub(crate) fn encode_wav_mono16(sample_rate: u32, samples: &Vec<i16>) -> (r: Vec<u8>)
    requires
        encodable_rate(sample_rate),
        samples@.len() <= MAX_CAPTURE_SAMPLES,
    ensures
        r@ == wav_encoding(sample_rate, samples@),
        r@.len() == WAV_HEADER_BYTES + 2 * samples@.len(),
{
    let wav_spec = hound::WavSpec {
        channels: 1,
        sample_rate,
        bits_per_sample: 16,
        sample_format: hound::SampleFormat::Int,
    };
    let mut cursor = std::io::Cursor::new(Vec::new());
    let mut writer = hound::WavWriter::new(&mut cursor, wav_spec).expect("in-memory header write");
    for s in samples.iter() {
        writer.write_sample(*s).expect("in-memory sample write");
    }
    writer.finalize().expect("in-memory finalize");
    cursor.into_inner()
}

/// Relies on `hound::WavReader::{new, spec, len}`: reads the channel count,
/// sample rate and total sample count of a WAV image, or nothing when the
/// bytes do not parse.
#[verifier::external_body]
pub(crate) fn wav_info(bytes: &Vec<u8>) -> (r: Option<(u16, u32, u32)>)
    ensures
        r == wav_info_of(bytes@),
{
    match hound::WavReader::new(std::io::Cursor::new(bytes)) {
        Ok(reader) => {
            let s = reader.spec();
            Some((s.channels, s.sample_rate, reader.len()))
        },
        Err(_) => None,
    }
}

} // verus!
