//! Dimensions of the main image: the source scaled down, aspect ratio kept,
//! until its longer side is no longer than a given maximum.

use vstd::prelude::*;

verus! {

/// The longer of the two sides.
pub open spec fn longer_side(width: int, height: int) -> int {
    if width >= height {
        width
    } else {
        height
    }
}

/// `side * max_dimension / longest`, rounded to the nearest integer, halves up.
pub open spec fn rounded_share(side: int, longest: int, max_dimension: int) -> int {
    (2 * (side * max_dimension) + longest) / (2 * longest)
}

/// One side of the main image: untouched where the source already fits,
/// otherwise scaled by `max_dimension / longest`.
pub open spec fn scaled_side(side: int, longest: int, max_dimension: int) -> int {
    if longest <= max_dimension {
        side
    } else {
        rounded_share(side, longest, max_dimension)
    }
}

/// Both sides of the main image for a source of `width` by `height`.
pub open spec fn scaled_dimensions(width: int, height: int, max_dimension: int) -> (int, int) {
    (
        scaled_side(width, longer_side(width, height), max_dimension),
        scaled_side(height, longer_side(width, height), max_dimension),
    )
}

/// A side scaled by `max_dimension / longest` stays within `max_dimension`,
/// and the longest side lands on it exactly.
pub proof fn lemma_rounded_share_bound(side: int, longest: int, max_dimension: int)
    requires
        0 <= side <= longest,
        0 < longest,
        0 <= max_dimension,
    ensures
        0 <= rounded_share(side, longest, max_dimension) <= max_dimension,
        rounded_share(longest, longest, max_dimension) == max_dimension,
{
    let top = 2 * (side * max_dimension) + longest;
    let full = 2 * (longest * max_dimension) + longest;
    let bottom = 2 * longest;
    assert(0 <= side * max_dimension <= longest * max_dimension) by (nonlinear_arith)
        requires
            0 <= side <= longest,
            0 <= max_dimension,
    ;
    assert(full == max_dimension * bottom + longest) by (nonlinear_arith)
        requires
            full == 2 * (longest * max_dimension) + longest,
            bottom == 2 * longest,
    ;
    vstd::arithmetic::div_mod::lemma_fundamental_div_mod_converse(
        full,
        bottom,
        max_dimension,
        longest,
    );
    vstd::arithmetic::div_mod::lemma_div_is_ordered(top, full, bottom);
    vstd::arithmetic::div_mod::lemma_div_pos_is_pos(top, bottom);
}

/// The main image never exceeds the maximum on either side, and it has the
/// source's own dimensions exactly when the source already fits.
pub proof fn lemma_scaled_dimensions_bound(width: int, height: int, max_dimension: int)
    requires
        0 <= width,
        0 <= height,
        0 <= max_dimension,
    ensures
        0 <= scaled_dimensions(width, height, max_dimension).0 <= max_dimension,
        0 <= scaled_dimensions(width, height, max_dimension).1 <= max_dimension,
        scaled_dimensions(width, height, max_dimension) == (width, height) <==> longer_side(
            width,
            height,
        ) <= max_dimension,
        longer_side(width, height) > max_dimension ==> longer_side(
            scaled_dimensions(width, height, max_dimension).0,
            scaled_dimensions(width, height, max_dimension).1,
        ) == max_dimension,
{
    let longest = longer_side(width, height);
    if longest > max_dimension {
        lemma_rounded_share_bound(width, longest, max_dimension);
        lemma_rounded_share_bound(height, longest, max_dimension);
    }
}

/// Computes the dimensions of the main image.
pub fn scale_to_fit(width: u32, height: u32, max_dimension: u32) -> (out: (u32, u32))
    ensures
        (out.0 as int, out.1 as int) == scaled_dimensions(
            width as int,
            height as int,
            max_dimension as int,
        ),
        out.0 <= max_dimension,
        out.1 <= max_dimension,
{
    let longest: u32 = if width >= height {
        width
    } else {
        height
    };
    proof {
        lemma_scaled_dimensions_bound(width as int, height as int, max_dimension as int);
    }
    if longest <= max_dimension {
        (width, height)
    } else {
        (
            share_of(width, longest, max_dimension),
            share_of(height, longest, max_dimension),
        )
    }
}

/// `side * max_dimension / longest` rounded to the nearest integer.
fn share_of(side: u32, longest: u32, max_dimension: u32) -> (out: u32)
    requires
        side <= longest,
        0 < longest,
    ensures
        out == rounded_share(side as int, longest as int, max_dimension as int),
        out <= max_dimension,
{
    proof {
        lemma_rounded_share_bound(side as int, longest as int, max_dimension as int);
        assert(side as int * max_dimension as int <= 0xffff_ffff * 0xffff_ffff) by (nonlinear_arith)
            requires
                0 <= side as int <= 0xffff_ffff,
                0 <= max_dimension as int <= 0xffff_ffff,
        ;
    }
    let top: u128 = 2 * (side as u128 * max_dimension as u128) + longest as u128;
    let bottom: u128 = 2 * (longest as u128);
    (top / bottom) as u32
}

} // verus!
