//! Target geometry: the longer side is clamped to a maximum, the shorter side
//! follows by the same ratio, rounded down. Images are never enlarged.

use vstd::prelude::*;

verus! {

/// The longer of the two sides.
pub open spec fn long_side(w: int, h: int) -> int {
    if w >= h { w } else { h }
}

/// The shorter of the two sides.
pub open spec fn short_side(w: int, h: int) -> int {
    if w >= h { h } else { w }
}

/// Output dimensions for a `w` by `h` image under the maximum dimension `m`.
///
/// A square image counts as one whose width is the long side.
pub open spec fn target_size(w: int, h: int, m: int) -> (int, int) {
    if long_side(w, h) <= m {
        (w, h)
    } else if w >= h {
        (m, (h * m) / w)
    } else {
        ((w * m) / h, m)
    }
}

/// Scaling a side by `m / long` with truncation: the result is bounded by
/// `m` and by the side itself, and the product fits in 64 bits.
pub proof fn lemma_scaled_side(short: int, long: int, m: int)
    requires
        0 <= short <= long,
        0 <= m < long,
        long <= u32::MAX,
    ensures
        0 <= short * m <= u64::MAX,
        0 <= (short * m) / long <= m,
        (short * m) / long <= short,
        short * m - long < ((short * m) / long) * long <= short * m,
{
    assert(0 <= short * m <= long * long) by (nonlinear_arith)
        requires
            0 <= short <= long,
            0 <= m < long,
    ;
    assert(long * long <= 0xffff_ffff * 0xffff_ffff) by (nonlinear_arith)
        requires
            0 <= long <= 0xffff_ffff,
    ;
    let p = short * m;
    let q = p / long;
    assert(q * long <= p && p - long < q * long && 0 <= q) by (nonlinear_arith)
        requires
            q == p / long,
            0 <= p,
            0 < long,
    ;
    assert(q <= m) by (nonlinear_arith)
        requires
            q * long <= short * m,
            0 <= short <= long,
            0 <= m,
            0 <= q,
            0 < long,
    ;
    assert(q <= short) by (nonlinear_arith)
        requires
            q * long <= short * m,
            0 <= m < long,
            0 <= short,
            0 <= q,
    ;
}

/// Computes the output dimensions of an image of `width` by `height` pixels
/// whose longer side may not exceed `max_dimension`.
pub fn target_dimensions(width: u32, height: u32, max_dimension: u32) -> (r: (u32, u32))
    ensures
        (r.0 as int, r.1 as int) == target_size(
            width as int,
            height as int,
            max_dimension as int,
        ),
        r.0 <= width,
        r.1 <= height,
{
    if width >= height {
        if width > max_dimension {
            proof {
                lemma_scaled_side(height as int, width as int, max_dimension as int);
            }
            let scaled: u64 = (height as u64) * (max_dimension as u64) / (width as u64);
            (max_dimension, scaled as u32)
        } else {
            (width, height)
        }
    } else if height > max_dimension {
        proof {
            lemma_scaled_side(width as int, height as int, max_dimension as int);
        }
        let scaled: u64 = (width as u64) * (max_dimension as u64) / (height as u64);
        (scaled as u32, max_dimension)
    } else {
        (width, height)
    }
}

/// An image whose longer side exceeds the maximum comes out with its longer
/// side equal to the maximum and its shorter side equal to
/// `floor(short * m / long)`.
pub proof fn lemma_long_side_clamped(w: int, h: int, m: int)
    requires
        0 <= w <= u32::MAX,
        0 <= h <= u32::MAX,
        0 <= m,
        long_side(w, h) > m,
    ensures
        ({
            let t = target_size(w, h, m);
            &&& long_side(t.0, t.1) == m
            &&& short_side(t.0, t.1) == (short_side(w, h) * m) / long_side(w, h)
        }),
{
    lemma_scaled_side(short_side(w, h), long_side(w, h), m);
}

/// An image whose longer side is within the maximum keeps its dimensions.
pub proof fn lemma_no_upscaling(w: int, h: int, m: int)
    requires
        long_side(w, h) <= m,
    ensures
        target_size(w, h, m) == (w, h),
{
}

/// The longer output side never exceeds the maximum, and neither output side
/// exceeds the side it came from.
pub proof fn lemma_target_bounded(w: int, h: int, m: int)
    requires
        0 <= w <= u32::MAX,
        0 <= h <= u32::MAX,
        0 <= m,
    ensures
        ({
            let t = target_size(w, h, m);
            &&& long_side(t.0, t.1) <= m
            &&& 0 <= t.0 <= w
            &&& 0 <= t.1 <= h
        }),
{
    if long_side(w, h) > m {
        lemma_scaled_side(short_side(w, h), long_side(w, h), m);
    }
}

/// The aspect ratio survives to within one pixel of the shorter side: the
/// exact shorter side `short * m / long` lies less than one above the
/// shorter output side, and never below it.
pub proof fn lemma_aspect_within_one_pixel(w: int, h: int, m: int)
    requires
        0 <= w <= u32::MAX,
        0 <= h <= u32::MAX,
        0 <= m,
        long_side(w, h) > m,
    ensures
        ({
            let t = target_size(w, h, m);
            let out_short = short_side(t.0, t.1);
            &&& out_short * long_side(w, h) <= short_side(w, h) * m
            &&& short_side(w, h) * m < (out_short + 1) * long_side(w, h)
        }),
{
    let short = short_side(w, h);
    let long = long_side(w, h);
    lemma_scaled_side(short, long, m);
    lemma_long_side_clamped(w, h, m);
    let q = (short * m) / long;
    assert((q + 1) * long == q * long + long) by (nonlinear_arith);
}

/// Computing the geometry of an output again changes nothing.
pub proof fn lemma_target_idempotent(w: int, h: int, m: int)
    requires
        0 <= w <= u32::MAX,
        0 <= h <= u32::MAX,
        0 <= m,
    ensures
        ({
            let t = target_size(w, h, m);
            target_size(t.0, t.1, m) == t
        }),
{
    lemma_target_bounded(w, h, m);
}

} // verus!
