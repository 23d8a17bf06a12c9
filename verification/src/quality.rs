//! Quality-mode and jitter query arithmetic.
//!
//! All four queries are pure functions. Ratios and jitter offsets are kept as
//! exact rationals so that every result is pinned bit for bit: a scale ratio
//! is an integer count of tenths, and a jitter coordinate is a fraction
//! `num / den` in `[-1/2, 1/2)`. The boundary layer turns these into the
//! wire's floating-point fields.

use vstd::arithmetic::div_mod::{lemma_fundamental_div_mod, lemma_fundamental_div_mod_converse};
use vstd::prelude::*;

verus! {

// ---- Quality modes ----

pub const FFX_UPSCALE_QUALITY_MODE_NATIVEAA: u32 = 0;
pub const FFX_UPSCALE_QUALITY_MODE_QUALITY: u32 = 1;
pub const FFX_UPSCALE_QUALITY_MODE_BALANCED: u32 = 2;
pub const FFX_UPSCALE_QUALITY_MODE_PERFORMANCE: u32 = 3;
pub const FFX_UPSCALE_QUALITY_MODE_ULTRA_PERFORMANCE: u32 = 4;

/// The render-to-display scale ratio of a quality mode, in tenths:
/// native AA 1.0, quality 1.5, balanced 1.7, performance 2.0,
/// ultra performance 3.0. Any unrecognized mode falls back to 1.0 —
/// this is a query, never a validated command.
pub open spec fn ratio_tenths_spec(mode: u32) -> u32 {
    if mode == FFX_UPSCALE_QUALITY_MODE_QUALITY {
        15
    } else if mode == FFX_UPSCALE_QUALITY_MODE_BALANCED {
        17
    } else if mode == FFX_UPSCALE_QUALITY_MODE_PERFORMANCE {
        20
    } else if mode == FFX_UPSCALE_QUALITY_MODE_ULTRA_PERFORMANCE {
        30
    } else {
        10
    }
}

/// Scale ratio for a quality mode, as tenths of the real ratio.
pub fn ratio_for_quality(mode: u32) -> (r: u32)
    ensures
        r == ratio_tenths_spec(mode),
        10 <= r <= 30,
{
    if mode == FFX_UPSCALE_QUALITY_MODE_QUALITY {
        15
    } else if mode == FFX_UPSCALE_QUALITY_MODE_BALANCED {
        17
    } else if mode == FFX_UPSCALE_QUALITY_MODE_PERFORMANCE {
        20
    } else if mode == FFX_UPSCALE_QUALITY_MODE_ULTRA_PERFORMANCE {
        30
    } else {
        10
    }
}

// ---- Render resolution ----

/// One display dimension divided by the ratio (given in tenths) and rounded
/// to the nearest integer, halves away from zero: the value is
/// `display * 10 / ratio_tenths` as a rational, and adding half the
/// denominator before a floor division rounds it.
pub open spec fn rounded_dim_spec(display: u32, ratio_tenths: u32) -> int
    recommends
        ratio_tenths > 0,
{
    (20 * display + ratio_tenths) / (2 * ratio_tenths)
}

/// The rounded dimension never exceeds the display dimension while the ratio
/// is at least 1.0 (ten tenths).
proof fn lemma_rounded_dim_le_display(display: u32, ratio_tenths: u32)
    requires
        10 <= ratio_tenths,
    ensures
        0 <= rounded_dim_spec(display, ratio_tenths) <= display,
{
    let n: int = 20 * display + ratio_tenths;
    let d: int = 2 * ratio_tenths;
    let q: int = n / d;
    let m: int = n % d;
    lemma_fundamental_div_mod(n, d);
    assert(q >= 0) by (nonlinear_arith)
        requires
            n == d * q + m,
            0 <= m < d,
            n > 0,
            d > 0,
    ;
    assert(q <= display) by (nonlinear_arith)
        requires
            n == d * q + m,
            0 <= m < d,
            n == 20 * display + ratio_tenths,
            d == 2 * ratio_tenths,
            10 <= ratio_tenths,
            q >= 0,
    ;
}

/// Render resolution for a display size and quality mode: each dimension is
/// divided by the mode's ratio and rounded to the nearest integer (halves
/// away from zero), never truncated.
pub fn render_resolution(display_width: u32, display_height: u32, mode: u32) -> (r: (u32, u32))
    ensures
        r.0 == rounded_dim_spec(display_width, ratio_tenths_spec(mode)),
        r.1 == rounded_dim_spec(display_height, ratio_tenths_spec(mode)),
        r.0 <= display_width,
        r.1 <= display_height,
{
    let ratio: u32 = ratio_for_quality(mode);
    proof {
        lemma_rounded_dim_le_display(display_width, ratio);
        lemma_rounded_dim_le_display(display_height, ratio);
    }
    let w: u64 = (20 * (display_width as u64) + ratio as u64) / (2 * (ratio as u64));
    let h: u64 = (20 * (display_height as u64) + ratio as u64) / (2 * (ratio as u64));
    (w as u32, h as u32)
}

// ---- Jitter phase count ----

/// Phase count formula: the ceiling of `8 * (display_width / render_width)^2`,
/// capped at the widest value the wire's signed result field can carry. A zero
/// render width is a defined fallback: the ratio is taken as 1.0, giving 8.
pub open spec fn jitter_phase_count_spec(render_width: u32, display_width: u32) -> int {
    if render_width == 0 {
        8
    } else {
        let c = (8 * display_width * display_width + render_width * render_width - 1) / (
        render_width * render_width);
        if c > 0x7fff_ffff {
            0x7fff_ffff
        } else {
            c
        }
    }
}

/// Number of jitter phases for a render/display width pair.
pub fn jitter_phase_count(render_width: u32, display_width: u32) -> (r: i32)
    ensures
        r == jitter_phase_count_spec(render_width, display_width),
        0 <= r,
{
    if render_width == 0 {
        return 8;
    }
    let dw: u128 = display_width as u128;
    let rw: u128 = render_width as u128;
    proof {
        assert(8 * dw * dw <= 8 * 0xffff_ffff * 0xffff_ffff && rw * rw
            <= 0xffff_ffff * 0xffff_ffff) by (nonlinear_arith)
            requires
                dw <= 0xffff_ffff,
                rw <= 0xffff_ffff,
                0 <= dw,
                0 <= rw,
        ;
        assert(rw * rw >= 1) by (nonlinear_arith)
            requires
                rw >= 1,
        ;
    }
    let denom: u128 = rw * rw;
    let num: u128 = 8 * dw * dw + denom - 1;
    let c: u128 = num / denom;
    proof {
        let n: int = num as int;
        let d: int = denom as int;
        lemma_fundamental_div_mod(n, d);
        assert(c >= 0 && n / d <= n) by (nonlinear_arith)
            requires
                n == d * (c as int) + n % d,
                0 <= n % d < d,
                d >= 1,
                n >= 0,
                c == n / d,
        ;
    }
    if c > 0x7fff_ffff {
        0x7fff_ffff
    } else {
        c as i32
    }
}

// ---- Radical-inverse jitter sequence ----

/// Denominator of the exact base-`base` radical inverse of `i`: the base
/// raised to the number of digits of `i`.
pub open spec fn radical_inverse_den(i: nat, base: nat) -> nat
    decreases i,
    when base >= 2
    via radical_inverse_den_decreases
{
    if i == 0 {
        1
    } else {
        base * radical_inverse_den(i / base, base)
    }
}

#[via_fn]
proof fn radical_inverse_den_decreases(i: nat, base: nat) {
    assert(i != 0 ==> i / base < i) by (nonlinear_arith)
        requires
            base >= 2,
    ;
}

/// Numerator of the exact base-`base` radical inverse of `i`: the digits of
/// `i` written in reverse order. `num / den` is the radical-inverse value in
/// `[0, 1)`.
pub open spec fn radical_inverse_num(i: nat, base: nat) -> nat
    decreases i,
    when base >= 2
    via radical_inverse_num_decreases
{
    if i == 0 {
        0
    } else {
        (i % base) * radical_inverse_den(i / base, base) + radical_inverse_num(i / base, base)
    }
}

#[via_fn]
proof fn radical_inverse_num_decreases(i: nat, base: nat) {
    assert(i != 0 ==> i / base < i) by (nonlinear_arith)
        requires
            base >= 2,
    ;
}

/// The radical inverse is a fraction strictly below one, and its denominator
/// is positive and at most `base * i`.
pub proof fn lemma_radical_inverse_bounds(i: nat, base: nat)
    requires
        base >= 2,
    ensures
        radical_inverse_num(i, base) < radical_inverse_den(i, base),
        1 <= radical_inverse_den(i, base),
        radical_inverse_den(i, base) <= if i == 0 {
            1nat
        } else {
            base * i
        },
    decreases i,
{
    if i > 0 {
        let q = i / base;
        let d = i % base;
        assert(q < i && q * base <= i && d < base) by (nonlinear_arith)
            requires
                base >= 2,
                i >= 1,
                q == i / base,
                d == i % base,
        ;
        lemma_radical_inverse_bounds(q, base);
        let nq = radical_inverse_num(q, base);
        let dq = radical_inverse_den(q, base);
        assert(d * dq + nq < base * dq) by (nonlinear_arith)
            requires
                nq < dq,
                d < base,
                1 <= dq,
        ;
        if q == 0 {
            assert(radical_inverse_den(i, base) == base * 1 <= base * i) by (nonlinear_arith)
                requires
                    radical_inverse_den(i, base) == base * dq,
                    dq == 1,
                    i >= 1,
                    base >= 2,
            ;
        } else {
            assert(base * dq <= base * (base * q) <= base * i) by (nonlinear_arith)
                requires
                    dq <= base * q,
                    q * base <= i,
                    base >= 2,
                    q >= 1,
                    dq >= 1,
            ;
        }
    }
}

/// Exact radical inverse of `index` in the given base, as a fraction
/// `num / den` with `num < den`.
pub fn radical_inverse(index: u32, base: u32) -> (r: (u64, u64))
    requires
        base == 2 || base == 3,
    ensures
        r.0 == radical_inverse_num(index as nat, base as nat),
        r.1 == radical_inverse_den(index as nat, base as nat),
        r.0 < r.1,
        r.1 <= 3 * 0x1_0000_0000u64,
{
    proof {
        lemma_radical_inverse_bounds(index as nat, base as nat);
        assert(base * index <= 3 * 0x1_0000_0000) by (nonlinear_arith)
            requires
                base <= 3,
                index <= 0xffff_ffffu32,
        ;
    }
    let ghost all_den: nat = radical_inverse_den(index as nat, base as nat);
    let ghost all_num: nat = radical_inverse_num(index as nat, base as nat);
    let mut i: u32 = index;
    let mut num: u64 = 0;
    let mut den: u64 = 1;
    while i > 0
        invariant
            base == 2 || base == 3,
            all_den == radical_inverse_den(index as nat, base as nat),
            all_num == radical_inverse_num(index as nat, base as nat),
            all_num == num * radical_inverse_den(i as nat, base as nat) + radical_inverse_num(
                i as nat,
                base as nat,
            ),
            all_den == den * radical_inverse_den(i as nat, base as nat),
            num < den,
            1 <= den,
            all_den <= 3 * 0x1_0000_0000,
        decreases i,
    {
        let d: u32 = i % base;
        let ni: u32 = i / base;
        proof {
            lemma_radical_inverse_bounds(ni as nat, base as nat);
            let dq = radical_inverse_den(ni as nat, base as nat);
            let nq = radical_inverse_num(ni as nat, base as nat);
            // Unfold one digit of the spec at i > 0.
            assert(radical_inverse_den(i as nat, base as nat) == base * dq);
            assert(radical_inverse_num(i as nat, base as nat) == (i as nat % base as nat) * dq
                + nq);
            assert(num * (base * dq) + ((d as nat) * dq + nq) == (num * base + d) * dq + nq)
                by (nonlinear_arith)
            ;
            assert(den * (base * dq) == (den * base) * dq) by (nonlinear_arith);
            assert(den * base <= all_den) by (nonlinear_arith)
                requires
                    all_den == (den * base) * dq,
                    dq >= 1,
                    den >= 1,
                    base >= 2,
            ;
            assert(num * base + d < den * base) by (nonlinear_arith)
                requires
                    num < den,
                    d < base,
                    base >= 2,
            ;
        }
        num = num * (base as u64) + (d as u64);
        den = den * (base as u64);
        i = ni;
    }
    proof {
        assert(radical_inverse_den(0, base as nat) == 1);
        assert(radical_inverse_num(0, base as nat) == 0);
        assert(all_num == num * 1 + 0 == num as nat);
        assert(all_den == den * 1 == den as nat);
    }
    (num, den)
}

// ---- Jitter offset ----

/// A jitter offset sample: two exact rational coordinates, each in
/// `[-1/2, 1/2)`.
#[derive(Clone, Copy, PartialEq, Eq, Structural, Debug)]
pub struct JitterSample {
    pub x_num: i64,
    pub x_den: i64,
    pub y_num: i64,
    pub y_den: i64,
}

/// The sequence position a caller's index selects: the index reduced modulo
/// the phase count with a positive result (negative indices wrap forward),
/// then shifted by one so the sequence never starts on the degenerate zero
/// sample.
pub open spec fn jitter_sequence_index(index: int, phase_count: int) -> nat
    recommends
        phase_count > 0,
{
    (index % phase_count + 1) as nat
}

/// Numerator of one jitter coordinate: the radical inverse recentered from
/// `[0, 1)` to `[-1/2, 1/2)` by subtracting one half.
pub open spec fn jitter_num_spec(index: int, phase_count: int, base: nat) -> int {
    if phase_count <= 0 {
        0
    } else {
        let n = jitter_sequence_index(index, phase_count);
        2 * radical_inverse_num(n, base) - radical_inverse_den(n, base)
    }
}

/// Denominator of one jitter coordinate.
pub open spec fn jitter_den_spec(index: int, phase_count: int, base: nat) -> int {
    if phase_count <= 0 {
        1
    } else {
        2 * (radical_inverse_den(jitter_sequence_index(index, phase_count), base) as int)
    }
}

/// Every jitter coordinate lies in `[-1/2, 1/2)`: the denominator is
/// positive and twice the numerator sits in `[-den, den)`; and a
/// non-positive phase count pins the coordinate to exactly zero.
pub proof fn lemma_jitter_offset_centered(index: int, phase_count: int, base: nat)
    requires
        base == 2 || base == 3,
    ensures
        0 < jitter_den_spec(index, phase_count, base),
        -jitter_den_spec(index, phase_count, base) <= 2 * jitter_num_spec(
            index,
            phase_count,
            base,
        ) < jitter_den_spec(index, phase_count, base),
        phase_count <= 0 ==> jitter_num_spec(index, phase_count, base) == 0,
{
    if phase_count > 0 {
        let n = jitter_sequence_index(index, phase_count);
        lemma_radical_inverse_bounds(n, base);
    }
}

/// Jitter offset for a frame index: the base-2 radical inverse on the x axis
/// and the base-3 radical inverse on the y axis, each recentered to
/// `[-1/2, 1/2)`. A non-positive phase count yields exactly (0, 0) rather
/// than a fault.
pub fn jitter_offset(index: i32, phase_count: i32) -> (r: JitterSample)
    ensures
        r.x_num == jitter_num_spec(index as int, phase_count as int, 2),
        r.x_den == jitter_den_spec(index as int, phase_count as int, 2),
        r.y_num == jitter_num_spec(index as int, phase_count as int, 3),
        r.y_den == jitter_den_spec(index as int, phase_count as int, 3),
        0 < r.x_den,
        0 < r.y_den,
        -r.x_den <= 2 * r.x_num < r.x_den,
        -r.y_den <= 2 * r.y_num < r.y_den,
{
    if phase_count <= 0 {
        return JitterSample { x_num: 0, x_den: 1, y_num: 0, y_den: 1 };
    }
    let pc: u64 = phase_count as u64;
    let m: u64 = if index >= 0 {
        (index as u64) % pc
    } else {
        let a: u64 = (-(index as i64)) as u64;
        let rem: u64 = a % pc;
        proof {
            lemma_fundamental_div_mod(a as int, pc as int);
            if rem != 0 {
                assert(index as int == (-(a as int / pc as int) - 1) * (pc as int) + (pc - rem))
                    by (nonlinear_arith)
                    requires
                        a as int == (pc as int) * (a as int / pc as int) + (rem as int),
                        index as int == -(a as int),
                ;
                lemma_fundamental_div_mod_converse(
                    index as int,
                    pc as int,
                    -(a as int / pc as int) - 1,
                    pc as int - rem as int,
                );
            } else {
                assert(index as int == (-(a as int / pc as int)) * (pc as int) + 0)
                    by (nonlinear_arith)
                    requires
                        a as int == (pc as int) * (a as int / pc as int) + (rem as int),
                        index as int == -(a as int),
                        rem == 0,
                ;
                lemma_fundamental_div_mod_converse(
                    index as int,
                    pc as int,
                    -(a as int / pc as int),
                    0,
                );
            }
        }
        if rem == 0 {
            0
        } else {
            pc - rem
        }
    };
    assert(m == (index as int) % (phase_count as int));
    let n: u32 = (m + 1) as u32;
    let (xn, xd) = radical_inverse(n, 2);
    let (yn, yd) = radical_inverse(n, 3);
    JitterSample {
        x_num: 2 * (xn as i64) - (xd as i64),
        x_den: 2 * (xd as i64),
        y_num: 2 * (yn as i64) - (yd as i64),
        y_den: 2 * (yd as i64),
    }
}

} // verus!
