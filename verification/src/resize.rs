use vstd::prelude::*;

verus! {

use crate::pixel::{PixelImage, RgbView};
use vstd::arithmetic::div_mod::{lemma_fundamental_div_mod, lemma_fundamental_div_mod_converse};
use vstd::math::abs;
use vstd::slice::slice_to_vec;

/// `a / b` rounded to the nearest integer, ties rounding up, for `b >= 1`
/// and `a >= 0`.
pub open spec fn round_nearest_div(a: int, b: int) -> int {
    (a + b / 2) / b
}

/// The width after fitting a `w x h` image into an `n x n` bounding box:
/// the larger dimension becomes `n`, the other shrinks (or grows)
/// proportionally, rounded to the nearest pixel and floored at one pixel.
pub open spec fn fit_width(w: int, h: int, n: int) -> int {
    if w >= h {
        n
    } else if round_nearest_div(w * n, h) >= 1 {
        round_nearest_div(w * n, h)
    } else {
        1
    }
}

/// The height after fitting a `w x h` image into an `n x n` bounding box.
pub open spec fn fit_height(w: int, h: int, n: int) -> int {
    if w >= h {
        if round_nearest_div(h * n, w) >= 1 {
            round_nearest_div(h * n, w)
        } else {
            1
        }
    } else {
        n
    }
}

/// What the Lanczos3 resampler returns for the given samples and
/// dimensions. Stated only through the trusted resampling wrapper; nothing
/// else is assumed of it.
pub uninterp spec fn lanczos3_resampled(pixels: Seq<u8>, w: int, h: int, nw: int, nh: int) -> Seq<u8>;

/// The resize step as a value-level function: a zero bound is the identity,
/// a bound the image already meets exactly keeps the image as it stands, and
/// anything else resamples to the fitted dimensions.
pub open spec fn spec_resize(v: RgbView, n: int) -> RgbView {
    if n == 0 {
        v
    } else {
        let fw = fit_width(v.width, v.height, n);
        let fh = fit_height(v.width, v.height, n);
        if fw == v.width && fh == v.height {
            v
        } else {
            RgbView { width: fw, height: fh, pixels: lanczos3_resampled(v.pixels, v.width, v.height, fw, fh) }
        }
    }
}

/// The fitted output buffer fits in the address space, a machine limit the
/// resampler cannot exceed. Trivially true for any downscale; only an
/// upscale to astronomical bounds can break it.
pub open spec fn resize_fits(v: RgbView, n: int) -> bool {
    n == 0 || fit_width(v.width, v.height, n) * fit_height(v.width, v.height, n) * 3 <= usize::MAX
}

/// Rounding to the nearest multiple never overshoots a bound the exact
/// quotient meets: `a <= c * b` gives `round(a / b) <= c`.
pub proof fn lemma_round_le(a: int, b: int, c: int)
    requires
        1 <= b,
        0 <= a,
        a <= c * b,
    ensures
        round_nearest_div(a, b) <= c,
{
    assert((a + b / 2) / b <= c) by (nonlinear_arith)
        requires
            1 <= b,
            0 <= a,
            a <= c * b,
    ;
}

/// Rounding an exact multiple recovers the factor: `round(f * n / n) == f`.
pub proof fn lemma_round_exact(f: int, n: int)
    requires
        1 <= n,
        0 <= f,
    ensures
        round_nearest_div(f * n, n) == f,
{
    lemma_fundamental_div_mod(n, 2);
    lemma_fundamental_div_mod_converse(f * n + n / 2, n, f, n / 2);
}

/// The rounded quotient is within half a denominator of the exact one:
/// `2 * |round(a / b) * b - a| <= b`.
pub proof fn lemma_round_near(a: int, b: int)
    requires
        1 <= b,
        0 <= a,
    ensures
        2 * abs(round_nearest_div(a, b) * b - a) <= b,
{
    lemma_fundamental_div_mod(b, 2);
    let d = b / 2;
    let s = a + d;
    lemma_fundamental_div_mod(s, b);
    let q = s / b;
    let r = s % b;
    assert(q * b - a == d - r) by (nonlinear_arith)
        requires
            s == b * q + r,
            s == a + d,
    ;
}

/// Both fitted dimensions stay within the bound, never fall under one
/// pixel, and the larger input dimension lands exactly on the bound.
pub proof fn lemma_fit_bounds(w: int, h: int, n: int)
    requires
        1 <= w,
        1 <= h,
        1 <= n,
    ensures
        1 <= fit_width(w, h, n) <= n,
        1 <= fit_height(w, h, n) <= n,
        w >= h ==> fit_width(w, h, n) == n,
        w < h ==> fit_height(w, h, n) == n,
{
    if w >= h {
        assert(h * n <= n * w) by (nonlinear_arith)
            requires
                h <= w,
                1 <= n,
        ;
        lemma_round_le(h * n, w, n);
    } else {
        assert(w * n <= n * h) by (nonlinear_arith)
            requires
                w <= h,
                1 <= n,
        ;
        lemma_round_le(w * n, h, n);
    }
}

/// Fitting is idempotent: fitting the fitted dimensions into the same box
/// changes nothing.
pub proof fn lemma_fit_idempotent(w: int, h: int, n: int)
    requires
        1 <= w,
        1 <= h,
        1 <= n,
    ensures
        fit_width(fit_width(w, h, n), fit_height(w, h, n), n) == fit_width(w, h, n),
        fit_height(fit_width(w, h, n), fit_height(w, h, n), n) == fit_height(w, h, n),
{
    lemma_fit_bounds(w, h, n);
    let fw = fit_width(w, h, n);
    let fh = fit_height(w, h, n);
    if w >= h {
        lemma_round_exact(fh, n);
    } else {
        if fw == n {
            lemma_round_exact(n, n);
        } else {
            lemma_round_exact(fw, n);
        }
    }
}

/// Resizing under a stable bound is idempotent: a second resize with the
/// same bound returns the first result unchanged.
pub proof fn lemma_resize_idempotent(v: RgbView, n: int)
    requires
        1 <= v.width,
        1 <= v.height,
        0 <= n,
    ensures
        spec_resize(spec_resize(v, n), n) == spec_resize(v, n),
{
    if n >= 1 {
        lemma_fit_bounds(v.width, v.height, n);
        lemma_fit_idempotent(v.width, v.height, n);
    }
}

/// Aspect ratio is preserved within one pixel of rounding: the larger
/// dimension lands on the bound and, as long as the one-pixel floor is not
/// engaged (`h * n >= w`, resp. `w * n >= h`), the other dimension is
/// within half a pixel of the exact proportional value.
pub proof fn lemma_fit_aspect_ratio(w: int, h: int, n: int)
    requires
        1 <= w,
        1 <= h,
        1 <= n,
    ensures
        fit_width(w, h, n) <= n,
        fit_height(w, h, n) <= n,
        w >= h ==> fit_width(w, h, n) == n,
        w < h ==> fit_height(w, h, n) == n,
        w >= h && h * n >= w ==> 2 * abs(fit_height(w, h, n) * w - h * n) <= w,
        w < h && w * n >= h ==> 2 * abs(fit_width(w, h, n) * h - w * n) <= h,
{
    lemma_fit_bounds(w, h, n);
    if w >= h && h * n >= w {
        lemma_round_near(h * n, w);
        lemma_round_le(w, w, 1);
        lemma_fundamental_div_mod(w, 2);
        lemma_fundamental_div_mod_converse(w + w / 2, w, 1, w / 2);
        assert(round_nearest_div(h * n, w) >= round_nearest_div(w, w)) by {
            vstd::arithmetic::div_mod::lemma_div_is_ordered(w + w / 2, h * n + w / 2, w);
        }
    } else if w < h && w * n >= h {
        lemma_round_near(w * n, h);
        lemma_fundamental_div_mod(h, 2);
        lemma_fundamental_div_mod_converse(h + h / 2, h, 1, h / 2);
        assert(round_nearest_div(w * n, h) >= round_nearest_div(h, h)) by {
            vstd::arithmetic::div_mod::lemma_div_is_ordered(h + h / 2, w * n + h / 2, h);
        }
    }
}

/// `a / b` rounded to nearest, ties up, in machine arithmetic.
fn round_div_u64(a: u64, b: u64) -> (r: u64)
    requires
        1 <= b,
        a + b / 2 <= u64::MAX,
    ensures
        r == round_nearest_div(a as int, b as int),
{
    (a + b / 2) / b
}

/// Computes the fitted dimensions for a `w x h` image and an `n x n`
/// bounding box, exactly as `fit_width` and `fit_height` state them.
pub fn fit_dimensions(w: u32, h: u32, n: u32) -> (r: (u32, u32))
    requires
        1 <= w,
        1 <= h,
        1 <= n,
    ensures
        r.0 == fit_width(w as int, h as int, n as int),
        r.1 == fit_height(w as int, h as int, n as int),
        1 <= r.0 <= n,
        1 <= r.1 <= n,
{
    proof {
        lemma_fit_bounds(w as int, h as int, n as int);
    }
    if w >= h {
        proof {
            assert(h as int * n as int + w as int / 2 <= u64::MAX as int) by (nonlinear_arith)
                requires
                    h <= u32::MAX,
                    n <= u32::MAX,
                    w <= u32::MAX,
            ;
        }
        let scaled: u64 = round_div_u64(h as u64 * n as u64, w as u64);
        let fh: u32 = if scaled == 0 {
            1u32
        } else {
            scaled as u32
        };
        (n, fh)
    } else {
        proof {
            assert(w as int * n as int + h as int / 2 <= u64::MAX as int) by (nonlinear_arith)
                requires
                    h <= u32::MAX,
                    n <= u32::MAX,
                    w <= u32::MAX,
            ;
        }
        let scaled: u64 = round_div_u64(w as u64 * n as u64, h as u64);
        let fw: u32 = if scaled == 0 {
            1u32
        } else {
            scaled as u32
        };
        (fw, n)
    }
}

/// Relies on `image::imageops::resize` with `FilterType::Lanczos3`, on an
/// `RgbImage` rebuilt from the raw samples (`from_raw` accepts a buffer of
/// exactly `w * h * 3` bytes): resampling is a pure function of the samples
/// and the dimensions, and the output is an `nw x nh` RGB buffer, so it
/// holds exactly `nw * nh * 3` bytes.
#[verifier::external_body]
fn lanczos3_resize(pixels: &Vec<u8>, w: u32, h: u32, nw: u32, nh: u32) -> (r: Vec<u8>)
    requires
        1 <= w,
        1 <= h,
        1 <= nw,
        1 <= nh,
        pixels@.len() == w * h * 3,
        nw * nh * 3 <= usize::MAX,
    ensures
        r@ == lanczos3_resampled(pixels@, w as int, h as int, nw as int, nh as int),
        r@.len() == nw * nh * 3,
{
    let img = image::RgbImage::from_raw(w, h, pixels.clone()).unwrap();
    let out = image::imageops::resize(&img, nw, nh, image::imageops::FilterType::Lanczos3);
    out.into_raw()
}

/// Rescales the image to fit within a `max_size x max_size` bounding box,
/// preserving aspect ratio with nearest-pixel rounding; `max_size == 0`
/// returns an unchanged copy. Pure and deterministic up to the resampler;
/// never fails for input the machine can hold.
pub fn resize_image(img: &PixelImage, max_size: u32) -> (r: PixelImage)
    requires
        img@.wf(),
        resize_fits(img@, max_size as int),
    ensures
        r@ == spec_resize(img@, max_size as int),
        r@.wf(),
        max_size == 0 ==> r@ == img@,
{
    if max_size == 0 {
        return PixelImage {
            width: img.width,
            height: img.height,
            pixels: slice_to_vec(img.pixels.as_slice()),
        };
    }
    let (fw, fh) = fit_dimensions(img.width, img.height, max_size);
    if fw == img.width && fh == img.height {
        return PixelImage {
            width: img.width,
            height: img.height,
            pixels: slice_to_vec(img.pixels.as_slice()),
        };
    }
    let out = lanczos3_resize(&img.pixels, img.width, img.height, fw, fh);
    PixelImage { width: fw, height: fh, pixels: out }
}

} // verus!
