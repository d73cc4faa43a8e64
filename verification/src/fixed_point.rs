//! Amplitudes and gains as integers.
//!
//! An amplitude is a signed count of billionths of full scale. A gain is a
//! numerator over a positive unity. Applying a gain multiplies exactly and then
//! drops the fraction, rounding toward zero.

use vstd::prelude::*;

verus! {

/// The amplitude that stands for 1.0.
pub const FULL_SCALE: i64 = 1_000_000_000;

/// The quotient of `a` by a positive `b`, rounded toward zero.
pub open spec fn trunc_div(a: int, b: int) -> int
    recommends
        b > 0,
{
    if a >= 0 {
        a / b
    } else {
        -((-a) / b)
    }
}

/// `amplitude` multiplied by the gain `gain / unity`, rounded toward zero.
pub open spec fn scale(amplitude: int, gain: int, unity: int) -> int
    recommends
        unity > 0,
{
    trunc_div(amplitude * gain, unity)
}

/// Whether `amplitude` lies within full scale, that is in [-1.0, 1.0].
pub open spec fn within_full_scale(amplitude: int) -> bool {
    -FULL_SCALE <= amplitude <= FULL_SCALE
}

/// Rounding toward zero never leaves the interval between zero and the exact
/// quotient: the result has the sign of `a` and `b` times it is at most one
/// divisor short of `a`.
pub proof fn lemma_trunc_div_bounds(a: int, b: int)
    requires
        b > 0,
    ensures
        a >= 0 ==> 0 <= trunc_div(a, b) * b <= a < (trunc_div(a, b) + 1) * b,
        a <= 0 ==> (trunc_div(a, b) - 1) * b < a <= trunc_div(a, b) * b <= 0,
        a >= 0 ==> 0 <= trunc_div(a, b) <= a,
        a <= 0 ==> a <= trunc_div(a, b) <= 0,
{
    let m: int = if a >= 0 { a } else { -a };
    let q: int = m / b;
    assert(0 <= q * b <= m < (q + 1) * b && 0 <= q <= m) by (nonlinear_arith)
        requires
            m >= 0,
            b > 0,
            q == m / b,
    ;
    if a <= 0 {
        assert((-q - 1) * b == -((q + 1) * b)) by (nonlinear_arith);
        assert((-q) * b == -(q * b)) by (nonlinear_arith);
    }
}

/// Rounding toward zero is monotone in the dividend.
pub proof fn lemma_trunc_div_monotone(a: int, c: int, b: int)
    requires
        b > 0,
        a <= c,
    ensures
        trunc_div(a, b) <= trunc_div(c, b),
{
    lemma_trunc_div_bounds(a, b);
    lemma_trunc_div_bounds(c, b);
    if a >= 0 {
        assert(a / b <= c / b) by (nonlinear_arith)
            requires
                0 <= a <= c,
                b > 0,
        ;
    } else if c < 0 {
        assert((-c) / b <= (-a) / b) by (nonlinear_arith)
            requires
                0 <= -c <= -a,
                b > 0,
        ;
    }
}

/// A gain between zero and unity never raises the magnitude of an amplitude
/// and never flips its sign.
pub proof fn lemma_scale_bounded(amplitude: int, gain: int, unity: int)
    requires
        unity > 0,
        0 <= gain <= unity,
    ensures
        amplitude >= 0 ==> 0 <= scale(amplitude, gain, unity) <= amplitude,
        amplitude <= 0 ==> amplitude <= scale(amplitude, gain, unity) <= 0,
{
    let p: int = amplitude * gain;
    let q: int = trunc_div(p, unity);
    lemma_trunc_div_bounds(p, unity);
    if amplitude >= 0 {
        assert(0 <= p <= amplitude * unity) by (nonlinear_arith)
            requires
                p == amplitude * gain,
                amplitude >= 0,
                0 <= gain <= unity,
        ;
        assert(q <= amplitude) by (nonlinear_arith)
            requires
                q * unity <= amplitude * unity,
                unity > 0,
        ;
    } else {
        assert(amplitude * unity <= p <= 0) by (nonlinear_arith)
            requires
                p == amplitude * gain,
                amplitude <= 0,
                0 <= gain <= unity,
        ;
        assert(amplitude <= q) by (nonlinear_arith)
            requires
                amplitude * unity <= q * unity,
                unity > 0,
        ;
    }
}

/// A zero gain silences every amplitude and a unity gain changes none.
pub proof fn lemma_scale_ends(amplitude: int, unity: int)
    requires
        unity > 0,
    ensures
        scale(amplitude, 0, unity) == 0,
        scale(amplitude, unity, unity) == amplitude,
{
    assert(amplitude * 0 == 0) by (nonlinear_arith);
    assert(0int / unity == 0) by (nonlinear_arith)
        requires
            unity > 0,
    ;
    if amplitude >= 0 {
        assert((amplitude * unity) / unity == amplitude) by (nonlinear_arith)
            requires
                unity > 0,
        ;
        assert(amplitude * unity >= 0) by (nonlinear_arith)
            requires
                amplitude >= 0,
                unity > 0,
        ;
    } else {
        assert(amplitude * unity < 0) by (nonlinear_arith)
            requires
                amplitude < 0,
                unity > 0,
        ;
        assert((-(amplitude * unity)) / unity == -amplitude) by (nonlinear_arith)
            requires
                unity > 0,
        ;
    }
}

/// `input` held between `min` and `max`.
pub open spec fn clamped(input: int, min: int, max: int) -> int
    recommends
        min <= max,
{
    if input < min {
        min
    } else if input > max {
        max
    } else {
        input
    }
}

/// Holds `input` between `min` and `max`, by `num::clamp`: it returns `min`
/// for an input below it, `max` for an input above it and the input otherwise.
/// The bounds must be in order, which `num::clamp` checks in a debug build.
#[verifier::external_body]
pub(crate) fn clamp(input: i32, min: i32, max: i32) -> (held: i32)
    requires
        min <= max,
    ensures
        held == clamped(input as int, min as int, max as int),
{
    num::clamp(input, min, max)
}

/// Applies the gain `gain / unity` to `amplitude`.
pub fn scale_amplitude(amplitude: i64, gain: u32, unity: u32) -> (scaled: i64)
    requires
        unity > 0,
        gain <= unity,
    ensures
        scaled == scale(amplitude as int, gain as int, unity as int),
{
    proof {
        lemma_scale_bounded(amplitude as int, gain as int, unity as int);
        assert(-0x8000_0000_0000_0000_0000_0000 <= (amplitude as int) * (gain as int)
            <= 0x8000_0000_0000_0000_0000_0000) by (nonlinear_arith)
            requires
                -0x8000_0000_0000_0000 <= amplitude as int <= 0x8000_0000_0000_0000,
                0 <= gain as int <= 0x1_0000_0000,
        ;
    }
    let product: i128 = (amplitude as i128) * (gain as i128);
    let quotient: i128 = product / (unity as i128);
    quotient as i64
}

} // verus!
