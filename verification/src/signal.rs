//! Noise generation for the audio callback.
//!
//! Samples are kept in fixed point so that the whole rendering rule can
//! be stated and checked exactly: a sample of [`SAMPLE_ONE`] stands for
//! 1.0, and the amplitude parameter is a fraction of [`AMP_ONE`].  The
//! host-facing layer divides by these scales to obtain floating-point
//! samples in [-1.0, 1.0).
//!
//! Each active sample comes from one fresh uniform draw `r` over all of
//! `u32`: the half-range midpoint is subtracted to centre the draw, and
//! the magnitude is scaled by the amplitude fraction.

use vstd::prelude::*;

verus! {

/// Fixed-point scale of the amplitude parameter: this value stands for
/// an amplitude of 1.0.
pub const AMP_ONE: u32 = 1_000_000;

/// Fixed-point scale of an output sample: this value stands for 1.0.
pub const SAMPLE_ONE: i64 = 2_147_483_648;

/// Midpoint of the `u32` draw range; draws at or above it give
/// non-negative samples, draws below it give negative ones.
pub const HALF_RANGE: u32 = 2_147_483_648;

/// A non-negative magnitude scaled down by the amplitude fraction
/// `amp / AMP_ONE`, rounded towards zero.
pub open spec fn scale_mag(mag: int, amp: int) -> int {
    (mag * amp) / (AMP_ONE as int)
}

/// The sample produced by the draw `r` at amplitude `amp`: the draw is
/// centred around [`HALF_RANGE`] and its magnitude scaled by the
/// amplitude fraction.
pub open spec fn noise_value(r: u32, amp: u32) -> int {
    if r >= HALF_RANGE {
        scale_mag(r - HALF_RANGE, amp as int)
    } else {
        -scale_mag(HALF_RANGE - r, amp as int)
    }
}

/// Relies on `rand::random::<u32>` for a fresh uniform draw; nothing is
/// promised of the value, any `u32` may come back.
#[verifier::external_body]
fn random_u32() -> u32 {
    rand::random::<u32>()
}

/// Scaling by an amplitude of at most [`AMP_ONE`] never grows a
/// magnitude.
pub proof fn lemma_scale_mag_bound(mag: int, amp: int)
    requires
        0 <= mag,
        0 <= amp,
        amp <= AMP_ONE as int,
    ensures
        0 <= scale_mag(mag, amp),
        scale_mag(mag, amp) <= mag,
{
    assert(0 <= (mag * amp) / (AMP_ONE as int) <= mag) by (nonlinear_arith)
        requires
            0 <= mag,
            0 <= amp,
            amp <= AMP_ONE as int,
    ;
}

/// One output sample for the draw `r` at amplitude `amp`, in fixed
/// point.  The result always lies in [-1.0, 1.0) of the sample scale.
pub fn noise_sample(r: u32, amp: u32) -> (s: i64)
    requires
        amp <= AMP_ONE,
    ensures
        s == noise_value(r, amp),
        -SAMPLE_ONE <= s < SAMPLE_ONE,
{
    if r >= HALF_RANGE {
        let mag: u64 = (r - HALF_RANGE) as u64;
        proof {
            assert(mag * amp <= 2_147_483_648u64 * 1_000_000u64) by (nonlinear_arith)
                requires
                    mag <= 2_147_483_648u64,
                    amp <= 1_000_000u32,
            ;
            lemma_scale_mag_bound(mag as int, amp as int);
        }
        let scaled: u64 = mag * (amp as u64) / (AMP_ONE as u64);
        scaled as i64
    } else {
        let mag: u64 = (HALF_RANGE - r) as u64;
        proof {
            assert(mag * amp <= 2_147_483_648u64 * 1_000_000u64) by (nonlinear_arith)
                requires
                    mag <= 2_147_483_648u64,
                    amp <= 1_000_000u32,
            ;
            lemma_scale_mag_bound(mag as int, amp as int);
        }
        let scaled: u64 = mag * (amp as u64) / (AMP_ONE as u64);
        -(scaled as i64)
    }
}

/// What one stored sample may be: silence exactly when inactive, and
/// the value of some draw at the given amplitude when active.
pub open spec fn sample_ok(s: i64, active: bool, amp: u32) -> bool {
    if active {
        exists|r: u32| s == noise_value(r, amp)
    } else {
        s == 0
    }
}

/// Fills one channel of `n` samples: silence when inactive, one fresh
/// draw per sample when active.
fn render_channel(n: usize, active: bool, amp: u32) -> (ch: Vec<i64>)
    requires
        amp <= AMP_ONE,
    ensures
        ch@.len() == n,
        forall|i: int| 0 <= i < n ==> sample_ok(#[trigger] ch@[i], active, amp),
        forall|i: int| 0 <= i < n ==> -SAMPLE_ONE <= #[trigger] ch@[i] < SAMPLE_ONE,
{
    let mut ch: Vec<i64> = Vec::new();
    let mut i: usize = 0;
    while i < n
        invariant
            i <= n,
            ch@.len() == i,
            amp <= AMP_ONE,
            forall|j: int| 0 <= j < i ==> sample_ok(#[trigger] ch@[j], active, amp),
            forall|j: int| 0 <= j < i ==> -SAMPLE_ONE <= #[trigger] ch@[j] < SAMPLE_ONE,
        decreases n - i,
    {
        if active {
            let r = random_u32();
            let s = noise_sample(r, amp);
            ch.push(s);
            proof {
                assert(ch@[i as int] == noise_value(r, amp));
            }
        } else {
            ch.push(0i64);
        }
        i = i + 1;
    }
    ch
}

/// Renders one block into the caller's channel-major buffer, keeping
/// its shape exactly: every channel keeps its length; every sample is
/// zero while inactive, and the value of a fresh uniform draw scaled by
/// `amp` while active; and every sample lies in [-1.0, 1.0) of the
/// sample scale.
pub fn render(out: &mut Vec<Vec<i64>>, active: bool, amp: u32)
    requires
        amp <= AMP_ONE,
    ensures
        final(out)@.len() == old(out)@.len(),
        forall|c: int| 0 <= c < old(out)@.len() ==> (#[trigger] final(out)@[c])@.len()
            == old(out)@[c]@.len(),
        forall|c: int, i: int|
            0 <= c < final(out)@.len() && 0 <= i < final(out)@[c]@.len() ==> sample_ok(
                #[trigger] final(out)@[c]@[i],
                active,
                amp,
            ),
        forall|c: int, i: int|
            0 <= c < final(out)@.len() && 0 <= i < final(out)@[c]@.len() ==> -SAMPLE_ONE
                <= #[trigger] final(out)@[c]@[i] < SAMPLE_ONE,
{
    let n = out.len();
    let mut c: usize = 0;
    while c < n
        invariant
            c <= n,
            out@.len() == n,
            n == old(out)@.len(),
            amp <= AMP_ONE,
            forall|k: int| c <= k < n ==> #[trigger] out@[k] == old(out)@[k],
            forall|k: int| 0 <= k < c ==> (#[trigger] out@[k])@.len() == old(out)@[k]@.len(),
            forall|k: int, i: int|
                0 <= k < c && 0 <= i < out@[k]@.len() ==> sample_ok(
                    #[trigger] out@[k]@[i],
                    active,
                    amp,
                ),
            forall|k: int, i: int|
                0 <= k < c && 0 <= i < out@[k]@.len() ==> -SAMPLE_ONE <= #[trigger] out@[k]@[i]
                    < SAMPLE_ONE,
        decreases n - c,
    {
        let len_c = out[c].len();
        let ch = render_channel(len_c, active, amp);
        out.set(c, ch);
        c = c + 1;
    }
}

/// Doubling the amplitude doubles every sample up to one unit of
/// fixed-point rounding: for the same draw, the sample at amplitude
/// `2 * amp` differs from twice the sample at `amp` by at most 1.
pub proof fn lemma_noise_amplitude_doubling(r: u32, amp: u32)
    requires
        2 * amp <= AMP_ONE,
    ensures
        -1 <= noise_value(r, (2 * amp) as u32) - 2 * noise_value(r, amp) <= 1,
{
    if r >= HALF_RANGE {
        lemma_scale_mag_doubling(r - HALF_RANGE, amp as int);
    } else {
        lemma_scale_mag_doubling(HALF_RANGE - r, amp as int);
    }
}

/// Doubling the amplitude doubles a scaled magnitude up to one unit of
/// rounding.
pub proof fn lemma_scale_mag_doubling(mag: int, amp: int)
    requires
        0 <= mag,
        0 <= amp,
    ensures
        2 * scale_mag(mag, amp) <= scale_mag(mag, 2 * amp) <= 2 * scale_mag(mag, amp) + 1,
{
    let one = AMP_ONE as int;
    let q = (mag * amp) / one;
    let m = (mag * amp) % one;
    assert(mag * amp == q * one + m && 0 <= m < one) by (nonlinear_arith)
        requires
            0 <= mag,
            0 <= amp,
            q == (mag * amp) / one,
            m == (mag * amp) % one,
            one == AMP_ONE as int,
    ;
    assert(mag * (2 * amp) == (2 * q) * one + 2 * m) by (nonlinear_arith)
        requires
            mag * amp == q * one + m,
    ;
    assert((mag * (2 * amp)) / one == 2 * q + (2 * m) / one) by (nonlinear_arith)
        requires
            mag * (2 * amp) == (2 * q) * one + 2 * m,
            0 <= m < one,
            one == AMP_ONE as int,
    ;
}

} // verus!
