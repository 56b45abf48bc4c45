//! The capture writer: the sink that the real-time callback feeds, shared
//! with the control path behind one exclusive-access lock that the caller
//! holds.  It accepts blocks of native samples, down-mixes them to one
//! channel, normalizes each kept sample, and counts exactly how many samples
//! it holds.  Once finalized it turns into a closed sink: every further write
//! is a silent no-op, so a callback still in flight after stop can never
//! write past the finalized stream.

use vstd::math::min;
use vstd::prelude::*;

use crate::sample::fixed_norm;
use crate::sample::fixed_to_i16;
use crate::sample::u16_to_i16;
use crate::sample::lemma_fixed_norm_clamps;
use crate::wav::encodable_rate;
use crate::wav::encode_wav_mono16;
use crate::wav::is_encodable_rate;
use crate::wav::wav_encoding;
use crate::wav::MAX_CAPTURE_SAMPLES;
use crate::wav::WAV_HEADER_BYTES;

verus! {

/// A hardware sample representation that can be normalized to canonical
/// signed 16-bit PCM.  Floating-point hardware samples reach the library as
/// Q24 fixed-point values (`i64`).
pub trait NativeSample: Copy {
    /// The canonical signed 16-bit value of this native sample.
    spec fn canonical(self) -> i16;

    /// Normalizes this native sample to its canonical value.
    fn normalize(self) -> (r: i16)
        ensures
            r == self.canonical(),
    ;
}

impl NativeSample for i16 {
    open spec fn canonical(self) -> i16 {
        self
    }

    fn normalize(self) -> (r: i16) {
        self
    }
}

impl NativeSample for u16 {
    open spec fn canonical(self) -> i16 {
        (self - 32768) as i16
    }

    fn normalize(self) -> (r: i16) {
        u16_to_i16(self)
    }
}

impl NativeSample for i64 {
    open spec fn canonical(self) -> i16 {
        fixed_norm(self as int) as i16
    }

    fn normalize(self) -> (r: i16) {
        let r = fixed_to_i16(self);
        proof {
            lemma_fixed_norm_clamps(self as int);
        }
        r
    }
}

/// Law: for each native representation, normalizing the representation's
/// nominal maximum yields the canonical maximum and normalizing its nominal
/// minimum yields the canonical minimum.
pub proof fn lemma_normalize_extremes()
    ensures
        (32767i16).canonical() == 32767,
        (-32768i16).canonical() == -32768,
        (65535u16).canonical() == 32767,
        (0u16).canonical() == -32768,
        (0x100_0000i64).canonical() == 32767,
        (-0x100_0000i64).canonical() == -32768,
{
    lemma_fixed_norm_clamps(0x100_0000);
    lemma_fixed_norm_clamps(-0x100_0000);
}

/// How many samples survive down-mixing a buffer of `len` interleaved
/// samples to one channel out of `channels`.
pub open spec fn downmix_len(len: int, channels: int) -> int {
    if len <= 0 {
        0
    } else {
        (len - 1) / channels + 1
    }
}

/// Down-mixing to mono: of every `channels` interleaved samples only the
/// first is kept.
pub open spec fn downmix<T>(data: Seq<T>, channels: int) -> Seq<T> {
    Seq::new(downmix_len(data.len() as int, channels) as nat, |i: int| data[i * channels])
}

/// Each native sample of a sequence, normalized.
pub open spec fn canonical_seq<T: NativeSample>(data: Seq<T>) -> Seq<i16> {
    data.map(|i: int, s: T| s.canonical())
}

/// What a sink holds after accepting `more` on top of `cur`: everything, in
/// order, except that the sink never grows past its capacity.
pub open spec fn cap_append(cur: Seq<i16>, more: Seq<i16>) -> Seq<i16> {
    (cur + more).take(min(MAX_CAPTURE_SAMPLES as int, cur.len() + more.len() as int))
}

proof fn lemma_cap_append_nil(cur: Seq<i16>)
    requires
        cur.len() <= MAX_CAPTURE_SAMPLES,
    ensures
        cap_append(cur, Seq::<i16>::empty()) == cur,
{
    assert(cap_append(cur, Seq::<i16>::empty()) =~= cur);
}

proof fn lemma_cap_append_step(cur: Seq<i16>, more: Seq<i16>, k: int)
    requires
        0 <= k < more.len(),
        cur.len() <= MAX_CAPTURE_SAMPLES,
    ensures
        cap_append(cur, more.take(k)).len() == min(MAX_CAPTURE_SAMPLES as int, cur.len() + k),
        cap_append(cur, more.take(k)).len() < MAX_CAPTURE_SAMPLES ==> cap_append(cur, more.take(k + 1))
            == cap_append(cur, more.take(k)).push(more[k]),
        cap_append(cur, more.take(k)).len() >= MAX_CAPTURE_SAMPLES ==> cap_append(
            cur,
            more.take(k + 1),
        ) == cap_append(cur, more.take(k)),
{
    if cap_append(cur, more.take(k)).len() < MAX_CAPTURE_SAMPLES {
        assert(cap_append(cur, more.take(k + 1)) =~= cap_append(cur, more.take(k)).push(more[k]));
    } else {
        assert(cap_append(cur, more.take(k + 1)) =~= cap_append(cur, more.take(k)));
    }
}

/// The shared sink of one recording session.  While open it owns the
/// canonical samples written so far; `finalize` closes it and hands back the
/// finished WAV image.
pub struct CaptureWriter {
    sample_rate: u32,
    open: bool,
    samples: Vec<i16>,
    samples_written: u64,
}

impl CaptureWriter {
    /// The sample rate this sink was opened with.
    pub closed spec fn rate(&self) -> u32 {
        self.sample_rate
    }

    /// Whether the sink still accepts samples.
    pub closed spec fn is_open(&self) -> bool {
        self.open
    }

    /// The canonical samples accepted so far, in order.
    pub closed spec fn written(&self) -> Seq<i16> {
        self.samples@
    }

    /// The sample counter always equals the number of samples held, and the
    /// sink never exceeds its capacity.
    pub closed spec fn wf(&self) -> bool {
        self.samples@.len() == self.samples_written && self.samples_written <= MAX_CAPTURE_SAMPLES
    }

    /// Opens a fresh sink for a stream at `sample_rate`.
    pub fn new(sample_rate: u32) -> (w: CaptureWriter)
        ensures
            w.wf(),
            w.is_open(),
            w.rate() == sample_rate,
            w.written() == Seq::<i16>::empty(),
    {
        CaptureWriter { sample_rate, open: true, samples: Vec::new(), samples_written: 0 }
    }

    /// The number of samples accepted so far; readable at any time.
    pub fn samples_written(&self) -> (n: u64)
        requires
            self.wf(),
        ensures
            n == self.written().len(),
    {
        self.samples_written
    }

    /// Accepts one canonical sample.  Returns true exactly when the sample
    /// was stored: a closed or full sink drops it and stays unchanged.
    pub fn write_one(&mut self, s: i16) -> (ok: bool)
        requires
            old(self).wf(),
        ensures
            final(self).wf(),
            final(self).rate() == old(self).rate(),
            final(self).is_open() == old(self).is_open(),
            ok <==> (old(self).is_open() && old(self).written().len() < MAX_CAPTURE_SAMPLES),
            ok ==> final(self).written() == old(self).written().push(s),
            !ok ==> *final(self) == *old(self),
    {
        if !self.open {
            return false;
        }
        if self.samples_written >= MAX_CAPTURE_SAMPLES {
            return false;
        }
        self.samples.push(s);
        self.samples_written = self.samples_written + 1;
        true
    }

    /// Accepts one block of interleaved native samples: down-mixes to one
    /// channel, normalizes each kept sample and stores it.  A closed sink
    /// ignores the whole block.
    pub fn write_block<T: NativeSample>(&mut self, data: &Vec<T>, channels: usize)
        requires
            channels >= 1,
            old(self).wf(),
        ensures
            final(self).wf(),
            final(self).rate() == old(self).rate(),
            final(self).is_open() == old(self).is_open(),
            old(self).is_open() ==> final(self).written() == cap_append(
                old(self).written(),
                canonical_seq(downmix(data@, channels as int)),
            ),
            !old(self).is_open() ==> *final(self) == *old(self),
    {
        let ghost cur = self.written();
        let ghost m = canonical_seq(downmix(data@, channels as int));
        if !self.open {
            return ;
        }
        if data.len() == 0 {
            proof {
                assert(m =~= Seq::<i16>::empty());
                lemma_cap_append_nil(cur);
            }
            return ;
        }
        let n = data.len();
        let dm_len = (n - 1) / channels + 1;
        let mut k: usize = 0;
        proof {
            assert(m.take(0) =~= Seq::<i16>::empty());
            lemma_cap_append_nil(cur);
        }
        while k < dm_len
            invariant
                channels >= 1,
                n == data.len(),
                1 <= n,
                dm_len == downmix_len(n as int, channels as int),
                m == canonical_seq(downmix(data@, channels as int)),
                m.len() == dm_len,
                0 <= k <= dm_len,
                self.wf(),
                self.is_open(),
                self.rate() == old(self).rate(),
                cur.len() <= MAX_CAPTURE_SAMPLES,
                self.written() == cap_append(cur, m.take(k as int)),
            decreases dm_len - k,
        {
            proof {
                assert((k as int) * (channels as int) <= n - 1) by (nonlinear_arith)
                    requires
                        channels >= 1,
                        1 <= n,
                        0 <= k < dm_len,
                        dm_len == (n - 1) as int / channels as int + 1,
                ;
            }
            let idx = k * channels;
            let s = data[idx].normalize();
            proof {
                assert(m[k as int] == data@[(k as int) * (channels as int)].canonical());
                lemma_cap_append_step(cur, m, k as int);
            }
            let _ = self.write_one(s);
            k = k + 1;
        }
        proof {
            assert(m.take(dm_len as int) =~= m);
        }
    }

    /// Closes the sink exactly once.  A stream whose rate the container can
    /// carry comes back as the finished WAV image of everything the sink
    /// accepted; a rate the container cannot carry (zero, or past the
    /// header's 32-bit fields) closes the sink but yields no image, so no
    /// divide fault can reach the encoder.  A sink that is already closed
    /// rejects the call cleanly and stays unchanged.
    pub fn finalize(&mut self) -> (r: Option<Vec<u8>>)
        requires
            old(self).wf(),
        ensures
            final(self).wf(),
            final(self).rate() == old(self).rate(),
            final(self).written() == old(self).written(),
            old(self).is_open() ==> !final(self).is_open(),
            old(self).is_open() && encodable_rate(old(self).rate()) ==> (r matches Some(bytes)
                && bytes@ == wav_encoding(old(self).rate(), old(self).written()) && bytes@.len()
                == WAV_HEADER_BYTES + 2 * old(self).written().len()),
            old(self).is_open() && !encodable_rate(old(self).rate()) ==> r is None,
            !old(self).is_open() ==> r is None && *final(self) == *old(self),
    {
        if !self.open {
            return None;
        }
        self.open = false;
        if !is_encodable_rate(self.sample_rate) {
            return None;
        }
        Some(encode_wav_mono16(self.sample_rate, &self.samples))
    }
}

} // verus!
