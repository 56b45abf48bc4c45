//! Sample normalization: every hardware representation of one audio sample is
//! mapped to the canonical storage representation, signed 16-bit PCM.
//!
//! Three native representations are handled:
//! - signed 16-bit samples pass through unchanged (no function is needed);
//! - unsigned 16-bit samples are re-centered around the unsigned midpoint;
//! - floating-point samples are handed to the library as Q24 fixed-point
//!   values (the sample times `2^24`), clamped to one unit of gain and scaled
//!   onto the full signed 16-bit range: one positive unit becomes the
//!   canonical maximum, one negative unit the canonical minimum.

use vstd::prelude::*;

verus! {

/// One unit of gain in the Q24 fixed-point representation: a hardware sample
/// of `1.0` arrives as this value.
pub const FIXED_ONE: i64 = 0x100_0000;

/// The canonical value of an unsigned 16-bit sample: re-centered around the
/// unsigned midpoint so that `[0, 65535]` maps onto `[-32768, 32767]`.
pub open spec fn u16_norm(s: u16) -> int {
    s - 32768
}

/// A Q24 sample clamped to `[-FIXED_ONE, FIXED_ONE]`.
pub open spec fn fixed_clamped(q: int) -> int {
    if q < -(FIXED_ONE as int) {
        -(FIXED_ONE as int)
    } else if q > FIXED_ONE as int {
        FIXED_ONE as int
    } else {
        q
    }
}

/// The canonical value of a Q24 fixed-point sample: clamp to one unit of
/// gain, scale onto the full signed 16-bit range, and truncate toward zero.
/// The positive side scales by the canonical maximum, the negative side by
/// the magnitude of the canonical minimum, so each clamped extreme lands
/// exactly on its canonical extreme.
pub open spec fn fixed_norm(q: int) -> int {
    if fixed_clamped(q) >= 0 {
        (fixed_clamped(q) * 32767) / (FIXED_ONE as int)
    } else {
        -(((-fixed_clamped(q)) * 32768) / (FIXED_ONE as int))
    }
}

/// Re-centers an unsigned 16-bit sample around the unsigned midpoint.
pub fn u16_to_i16(s: u16) -> (r: i16)
    ensures
        r as int == u16_norm(s),
{
    (s as i32 - 32768) as i16
}

/// Normalizes a Q24 fixed-point sample to canonical signed 16-bit PCM.
/// Out-of-range input is clamped, never wrapped.
pub fn fixed_to_i16(q: i64) -> (r: i16)
    ensures
        r as int == fixed_norm(q as int),
{
    let clamped: i64 = if q < -FIXED_ONE {
        -FIXED_ONE
    } else if q > FIXED_ONE {
        FIXED_ONE
    } else {
        q
    };
    if clamped >= 0 {
        let scaled: i64 = (clamped * 32767) / FIXED_ONE;
        assert(scaled == fixed_norm(q as int)) by {
            lemma_scale_bound(clamped as int, 32767);
        };
        scaled as i16
    } else {
        let scaled: i64 = ((-clamped) * 32768) / FIXED_ONE;
        assert(-scaled == fixed_norm(q as int)) by {
            lemma_scale_bound(-clamped as int, 32768);
        };
        (-scaled) as i16
    }
}

/// Scaling a clamped magnitude by a factor never exceeds the factor.
proof fn lemma_scale_bound(m: int, factor: int)
    requires
        0 <= m <= FIXED_ONE as int,
        0 <= factor,
    ensures
        0 <= (m * factor) / (FIXED_ONE as int) <= factor,
        m == FIXED_ONE as int ==> (m * factor) / (FIXED_ONE as int) == factor,
{
    assert(0 <= m * factor <= (FIXED_ONE as int) * factor) by (nonlinear_arith)
        requires 0 <= m <= FIXED_ONE as int, 0 <= factor;
    assert((m * factor) / (FIXED_ONE as int) <= factor) by (nonlinear_arith)
        requires 0 <= m * factor <= (FIXED_ONE as int) * factor;
}

/// Law: normalization of an out-of-range Q24 sample clamps to the canonical
/// extreme of the matching sign; it never wraps.
pub proof fn lemma_fixed_norm_clamps(q: int)
    ensures
        q >= FIXED_ONE as int ==> fixed_norm(q) == 32767,
        q <= -(FIXED_ONE as int) ==> fixed_norm(q) == -32768,
        -32768 <= fixed_norm(q) <= 32767,
{
    if fixed_clamped(q) >= 0 {
        lemma_scale_bound(fixed_clamped(q), 32767);
    } else {
        lemma_scale_bound(-fixed_clamped(q), 32768);
    }
}

} // verus!
