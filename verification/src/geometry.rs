//! The bounding-box arithmetic of thumbnails.
//!
//! A thumbnail is the source scaled by `min(max_width / width, max_height / height)`:
//! the side whose bound is the tighter one takes its bound, the other side is
//! scaled by the same factor and rounded down. The policy is scale-to-fit in
//! both directions: a source smaller than the box is enlarged until one side
//! reaches its bound. A side that rounds down to nothing is kept at one pixel
//! as long as its bound is not zero, so that a thumbnail within positive
//! bounds is never empty. A bound of zero gives a side of zero.

use vstd::prelude::*;

verus! {

/// Whether the width bound is the tighter one, that is
/// `max_width / width <= max_height / height`, cross-multiplied so that it
/// reads for empty sources too.
pub open spec fn width_binds(width: nat, height: nat, max_width: nat, max_height: nat) -> bool {
    max_width * height <= max_height * width
}

/// `side * num / den` rounded down; 0 where `den` is 0.
pub open spec fn scaled_side(side: nat, num: nat, den: nat) -> nat {
    if den == 0 {
        0
    } else {
        (side * num) / den
    }
}

/// `side`, or one pixel where `side` is nothing and `bound` leaves room for one.
pub open spec fn keep_visible(side: nat, bound: nat) -> nat {
    if side == 0 && bound > 0 {
        1
    } else {
        side
    }
}

/// The width and height of the thumbnail of a `width` x `height` source
/// within a `max_width` x `max_height` box.
pub open spec fn fit_within(width: nat, height: nat, max_width: nat, max_height: nat) -> (
    nat,
    nat,
) {
    if width_binds(width, height, max_width, max_height) {
        (max_width, keep_visible(scaled_side(height, max_width, width), max_height))
    } else {
        (keep_visible(scaled_side(width, max_height, height), max_width), max_height)
    }
}

/// Rounding a quotient down loses less than one whole step of the divisor.
pub proof fn lemma_floor_brackets(n: nat, d: nat)
    requires
        d > 0,
    ensures
        (n / d) * d <= n,
        n < (n / d + 1) * d,
{
    vstd::arithmetic::div_mod::lemma_fundamental_div_mod(n as int, d as int);
    vstd::arithmetic::div_mod::lemma_mod_bound(n as int, d as int);
    assert((n / d) * d == d * (n / d)) by (nonlinear_arith);
    assert((n / d + 1) * d == d * (n / d) + d) by (nonlinear_arith);
}

/// A side scaled by a ratio that is at most `bound / side` stays within `bound`.
pub proof fn lemma_scaled_side_within(side: nat, num: nat, den: nat, bound: nat)
    requires
        side * num <= bound * den,
    ensures
        scaled_side(side, num, den) <= bound,
{
    if den > 0 {
        vstd::arithmetic::div_mod::lemma_div_is_ordered(
            (side * num) as int,
            (bound * den) as int,
            den as int,
        );
        vstd::arithmetic::div_mod::lemma_div_multiples_vanish(bound as int, den as int);
        assert(bound * den == den * bound) by (nonlinear_arith);
    }
}

/// Neither side of a thumbnail exceeds its bound, whatever the source and
/// the bounds are.
pub proof fn lemma_fit_within_bounds(width: nat, height: nat, max_width: nat, max_height: nat)
    ensures
        fit_within(width, height, max_width, max_height).0 <= max_width,
        fit_within(width, height, max_width, max_height).1 <= max_height,
{
    if width_binds(width, height, max_width, max_height) {
        assert(height * max_width == max_width * height) by (nonlinear_arith);
        lemma_scaled_side_within(height, max_width, width, max_height);
    } else {
        assert(width * max_height == max_height * width) by (nonlinear_arith);
        assert(max_width > 0) by (nonlinear_arith)
            requires
                max_width * height > max_height * width,
        ;
        lemma_scaled_side_within(width, max_height, height, max_width);
    }
}

/// A thumbnail is as large as the box allows: one of its sides is its bound.
pub proof fn lemma_fit_reaches_a_bound(width: nat, height: nat, max_width: nat, max_height: nat)
    ensures
        fit_within(width, height, max_width, max_height).0 == max_width || fit_within(
            width,
            height,
            max_width,
            max_height,
        ).1 == max_height,
{
}

/// Within positive bounds no side of a thumbnail is zero.
pub proof fn lemma_fit_is_visible(width: nat, height: nat, max_width: nat, max_height: nat)
    requires
        max_width > 0,
        max_height > 0,
    ensures
        fit_within(width, height, max_width, max_height).0 >= 1,
        fit_within(width, height, max_width, max_height).1 >= 1,
{
}

/// The aspect ratio is kept to within one pixel: the side that is not at its
/// bound differs by less than one from the exact scaled length, which for a
/// width-bound thumbnail is `height * max_width / width`.
pub proof fn lemma_fit_keeps_aspect(width: nat, height: nat, max_width: nat, max_height: nat)
    requires
        width > 0,
        height > 0,
        max_width > 0,
        max_height > 0,
    ensures
        ({
            let (w, h) = fit_within(width, height, max_width, max_height);
            if width_binds(width, height, max_width, max_height) {
                &&& w == max_width
                &&& (h - 1) * width < height * max_width
                &&& height * max_width < (h + 1) * width
            } else {
                &&& h == max_height
                &&& (w - 1) * height < width * max_height
                &&& width * max_height < (w + 1) * height
            }
        }),
{
    if width_binds(width, height, max_width, max_height) {
        lemma_one_pixel(height, max_width, width);
    } else {
        lemma_one_pixel(width, max_height, height);
    }
}

/// The step of `lemma_fit_keeps_aspect` for one side.
proof fn lemma_one_pixel(side: nat, num: nat, den: nat)
    requires
        side > 0,
        num > 0,
        den > 0,
    ensures
        ({
            let kept = keep_visible(scaled_side(side, num, den), num);
            &&& (kept - 1) * den < side * num
            &&& side * num < (kept + 1) * den
        }),
{
    let q = scaled_side(side, num, den);
    lemma_floor_brackets(side * num, den);
    assert(side * num > 0) by (nonlinear_arith)
        requires
            side > 0,
            num > 0,
    ;
    if q == 0 {
        assert((1 - 1) * den == 0) by (nonlinear_arith);
        assert((0 + 1) * den <= (1 + 1) * den) by (nonlinear_arith);
    } else {
        assert((q - 1) * den < q * den) by (nonlinear_arith)
            requires
                den > 0,
        ;
    }
}

/// A box of the source's own size leaves the source as it is.
pub proof fn lemma_fit_own_size(width: nat, height: nat)
    requires
        width > 0,
        height > 0,
    ensures
        fit_within(width, height, width, height) == (width, height),
{
    assert(width * height == height * width) by (nonlinear_arith);
    vstd::arithmetic::div_mod::lemma_div_multiples_vanish(height as int, width as int);
}

/// Scale-to-fit in both directions: a box `k` times the source in each
/// direction gives a thumbnail `k` times the source, so a source smaller than
/// the box is enlarged.
pub proof fn lemma_fit_whole_multiple(width: nat, height: nat, k: nat)
    requires
        width > 0,
        height > 0,
        k > 0,
    ensures
        fit_within(width, height, k * width, k * height) == (k * width, k * height),
{
    assert((k * width) * height == (k * height) * width) by (nonlinear_arith);
    assert(height * (k * width) == width * (k * height)) by (nonlinear_arith);
    vstd::arithmetic::div_mod::lemma_div_multiples_vanish((k * height) as int, width as int);
    assert(k * height > 0) by (nonlinear_arith)
        requires
            k > 0,
            height > 0,
    ;
}

/// Within positive bounds a thumbnail is its own thumbnail: fitting the
/// fitted size into the same box changes nothing.
pub proof fn lemma_fit_settles(width: nat, height: nat, max_width: nat, max_height: nat)
    requires
        max_width > 0,
        max_height > 0,
    ensures
        ({
            let (w, h) = fit_within(width, height, max_width, max_height);
            fit_within(w, h, max_width, max_height) == (w, h)
        }),
{
    let (w, h) = fit_within(width, height, max_width, max_height);
    lemma_fit_within_bounds(width, height, max_width, max_height);
    if w == max_width {
        assert(max_width * h <= max_height * max_width) by (nonlinear_arith)
            requires
                h <= max_height,
        ;
        assert(h * max_width == max_width * h) by (nonlinear_arith);
        vstd::arithmetic::div_mod::lemma_div_multiples_vanish(h as int, max_width as int);
    } else {
        assert(max_width * max_height > max_height * w) by (nonlinear_arith)
            requires
                w < max_width,
                max_height > 0,
        ;
        assert(w * max_height == max_height * w) by (nonlinear_arith);
        vstd::arithmetic::div_mod::lemma_div_multiples_vanish(w as int, max_height as int);
    }
}

/// The product of two 32-bit values fits in 64 bits.
proof fn lemma_product_fits(a: u32, b: u32)
    ensures
        a * b <= u64::MAX,
{
    assert(a * b <= 0xffff_ffff * 0xffff_ffff) by (nonlinear_arith)
        requires
            a <= 0xffff_ffff,
            b <= 0xffff_ffff,
    ;
}

/// `side * num / den` rounded down and kept visible within `bound`.
fn scale_side(side: u32, num: u32, den: u32, bound: u32) -> (r: u32)
    requires
        side * num <= bound * den,
    ensures
        r as nat == keep_visible(scaled_side(side as nat, num as nat, den as nat), bound as nat),
{
    proof {
        lemma_product_fits(side, num);
        lemma_scaled_side_within(side as nat, num as nat, den as nat, bound as nat);
    }
    let scaled: u64 = if den == 0 {
        0
    } else {
        (side as u64) * (num as u64) / (den as u64)
    };
    if scaled == 0 && bound > 0 {
        1
    } else {
        scaled as u32
    }
}

/// The width and height of the thumbnail of a `width` x `height` source
/// within a `max_width` x `max_height` box.
pub fn thumbnail_dimensions(width: u32, height: u32, max_width: u32, max_height: u32) -> (r: (
    u32,
    u32,
))
    ensures
        (r.0 as nat, r.1 as nat) == fit_within(
            width as nat,
            height as nat,
            max_width as nat,
            max_height as nat,
        ),
        r.0 <= max_width,
        r.1 <= max_height,
{
    proof {
        lemma_product_fits(max_width, height);
        lemma_product_fits(max_height, width);
        lemma_fit_within_bounds(
            width as nat,
            height as nat,
            max_width as nat,
            max_height as nat,
        );
    }
    if (max_width as u64) * (height as u64) <= (max_height as u64) * (width as u64) {
        assert(height * max_width == max_width * height) by (nonlinear_arith);
        (max_width, scale_side(height, max_width, width, max_height))
    } else {
        assert(width * max_height <= max_width * height) by (nonlinear_arith)
            requires
                max_width * height > max_height * width,
        ;
        (scale_side(width, max_height, height, max_width), max_height)
    }
}

} // verus!
