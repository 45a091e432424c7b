//! Resampling with the three-lobe Lanczos filter of the `image` crate.
//!
//! The filter works in floating point, so nothing is said here about the
//! values of the samples it produces, except where it copies. What is stated
//! is the size of the result, and the inputs on which the resampler has room
//! to work: its buffers are allocated up front and their byte counts have to
//! stay within what one allocation may hold.

use crate::raster::{sample_count, Raster};
use vstd::prelude::*;

verus! {

/// Most bytes that a single allocation may hold.
pub open spec fn allocation_limit() -> int {
    isize::MAX as int
}

/// Room for an exact resize of a source `width` pixels wide to `new_width`
/// by `new_height`: an intermediate image of `width` by `new_height` pixels
/// at 16 bytes each, and the result at 4 bytes a pixel.
pub open spec fn resample_fits(width: int, new_width: int, new_height: int) -> bool {
    &&& 16 * (width * new_height) <= allocation_limit()
    &&& 4 * (new_width * new_height) <= allocation_limit()
}

/// Upper bound on one side of the image that a fill resize produces before
/// it crops. That side is the target's side or the source's side scaled by
/// the ratio of the other sides, whichever is larger, rounded; the bound is
/// the sum of the two and one.
pub open spec fn fill_side_bound(side: int, other: int, target_side: int, target_other: int) -> int {
    target_side + (side * target_other) / other + 1
}

/// Room for a fill resize of a `width` by `height` source to `new_width` by
/// `new_height`: a source that is not empty, intermediate sides that stay
/// well inside 32 bits, and room for the exact resize to those sides.
pub open spec fn fill_fits(width: int, height: int, new_width: int, new_height: int) -> bool {
    &&& width > 0
    &&& height > 0
    &&& fill_side_bound(width, height, new_width, new_height) < 0x8000_0000
    &&& fill_side_bound(height, width, new_height, new_width) < 0x8000_0000
    &&& resample_fits(
        width,
        fill_side_bound(width, height, new_width, new_height),
        fill_side_bound(height, width, new_height, new_width),
    )
}

/// `image::DynamicImage::resize_exact` with `FilterType::Lanczos3`, on an
/// RGBA image handed over as its raw buffer.
///
/// Claimed of it: the result has exactly `new_width * new_height` pixels,
/// and where the new dimensions are the old ones it is a copy of the source.
/// The precondition keeps both buffers that the resampler allocates within
/// the allocation limit; `ImageBuffer::new` panics on a buffer beyond it.
#[verifier::external_body]
fn lanczos_resize_exact(
    pixels: &Vec<u8>,
    width: u32,
    height: u32,
    new_width: u32,
    new_height: u32,
) -> (out: Vec<u8>)
    requires
        pixels@.len() == sample_count(width as int, height as int),
        resample_fits(width as int, new_width as int, new_height as int),
    ensures
        out@.len() == sample_count(new_width as int, new_height as int),
        new_width == width && new_height == height ==> out@ == pixels@,
{
    let buffer = image::RgbaImage::from_raw(width, height, pixels.clone()).unwrap();
    let resized = image::DynamicImage::ImageRgba8(buffer).resize_exact(
        new_width,
        new_height,
        image::imageops::FilterType::Lanczos3,
    );
    resized.into_rgba8().into_raw()
}

/// `image::DynamicImage::resize_to_fill` with `FilterType::Lanczos3`, on an
/// RGBA image handed over as its raw buffer.
///
/// Claimed of it: the result has exactly `new_width * new_height` pixels.
/// The precondition asks for a source that is not empty and keeps the
/// intermediate image, which is at least as large as the target on both
/// sides, small enough that its sides are not capped and its buffers stay
/// within the allocation limit.
#[verifier::external_body]
fn lanczos_resize_to_fill(
    pixels: &Vec<u8>,
    width: u32,
    height: u32,
    new_width: u32,
    new_height: u32,
) -> (out: Vec<u8>)
    requires
        pixels@.len() == sample_count(width as int, height as int),
        fill_fits(width as int, height as int, new_width as int, new_height as int),
    ensures
        out@.len() == sample_count(new_width as int, new_height as int),
{
    let buffer = image::RgbaImage::from_raw(width, height, pixels.clone()).unwrap();
    let filled = image::DynamicImage::ImageRgba8(buffer).resize_to_fill(
        new_width,
        new_height,
        image::imageops::FilterType::Lanczos3,
    );
    filled.into_rgba8().into_raw()
}

/// The product of two sides times a count of bytes per pixel, against the
/// allocation limit.
fn within_allocation_limit(bytes_per_pixel: u8, a: u64, b: u64) -> (ok: bool)
    requires
        a <= 0x1_0000_0000,
        b <= 0x1_0000_0000,
    ensures
        ok == (bytes_per_pixel * (a * b) <= allocation_limit()),
{
    assert(a as int * b as int <= 0x1_0000_0000 * 0x1_0000_0000) by (nonlinear_arith)
        requires
            0 <= a as int <= 0x1_0000_0000,
            0 <= b as int <= 0x1_0000_0000,
    ;
    let area: u128 = a as u128 * b as u128;
    assert(bytes_per_pixel as int * area as int <= 255 * (0x1_0000_0000 * 0x1_0000_0000))
        by (nonlinear_arith)
        requires
            0 <= bytes_per_pixel as int <= 255,
            0 <= area as int <= 0x1_0000_0000 * 0x1_0000_0000,
    ;
    bytes_per_pixel as u128 * area <= isize::MAX as u128
}

/// Whether an exact resize has room to work.
pub fn can_resize_exact(width: u32, new_width: u32, new_height: u32) -> (ok: bool)
    ensures
        ok == resample_fits(width as int, new_width as int, new_height as int),
{
    within_allocation_limit(16, width as u64, new_height as u64) && within_allocation_limit(
        4,
        new_width as u64,
        new_height as u64,
    )
}

/// One side of the bound on the intermediate image of a fill resize, where
/// it stays inside 31 bits.
fn fill_side(side: u32, other: u32, target_side: u32, target_other: u32) -> (out: Option<u64>)
    requires
        other > 0,
    ensures
        out.is_some() <==> fill_side_bound(
            side as int,
            other as int,
            target_side as int,
            target_other as int,
        ) < 0x8000_0000,
        out matches Some(bound) ==> bound == fill_side_bound(
            side as int,
            other as int,
            target_side as int,
            target_other as int,
        ),
{
    assert(0 <= side as int * target_other as int <= 0xffff_ffff * 0xffff_ffff)
        by (nonlinear_arith)
        requires
            0 <= side as int <= 0xffff_ffff,
            0 <= target_other as int <= 0xffff_ffff,
    ;
    let scaled: u64 = (side as u64 * target_other as u64) / other as u64;
    assert(scaled <= side as int * target_other as int) by {
        vstd::arithmetic::div_mod::lemma_div_is_ordered_by_denominator(
            side as int * target_other as int,
            1,
            other as int,
        );
    }
    let bound: u64 = target_side as u64 + scaled + 1;
    if bound < 0x8000_0000 {
        Some(bound)
    } else {
        None
    }
}

/// Whether a fill resize has room to work.
pub fn can_resize_to_fill(width: u32, height: u32, new_width: u32, new_height: u32) -> (ok: bool)
    ensures
        ok == fill_fits(width as int, height as int, new_width as int, new_height as int),
{
    if width == 0 || height == 0 {
        return false;
    }
    match (
        fill_side(width, height, new_width, new_height),
        fill_side(height, width, new_height, new_width),
    ) {
        (Some(wide), Some(high)) => within_allocation_limit(16, width as u64, high)
            && within_allocation_limit(4, wide, high),
        _ => false,
    }
}

/// Resizes an image to exactly `width` by `height` pixels, the aspect ratio
/// set aside. Without room for the resampler there is no result. An image
/// that already has the dimensions asked for comes back as a copy.
pub fn resize_exact(source: &Raster, width: u32, height: u32) -> (out: Option<Raster>)
    ensures
        out.is_some() <==> resample_fits(source.spec_width() as int, width as int, height as int),
        out matches Some(resized) ==> {
            &&& resized.spec_width() == width
            &&& resized.spec_height() == height
            &&& resized.wf()
            &&& (width == source.spec_width() && height == source.spec_height() ==> resized@
                == source@)
        },
{
    if can_resize_exact(source.width(), width, height) {
        let samples: Vec<u8> = lanczos_resize_exact(
            source.pixels(),
            source.width(),
            source.height(),
            width,
            height,
        );
        Some(Raster::from_samples(width, height, samples))
    } else {
        None
    }
}

/// Resizes an image so that it covers `width` by `height` pixels with its
/// aspect ratio kept, and crops what overhangs: the result is exactly
/// `width` by `height`. Without room for the resampler, or with an empty
/// source, there is no result.
pub fn resize_to_fill(source: &Raster, width: u32, height: u32) -> (out: Option<Raster>)
    ensures
        out.is_some() <==> fill_fits(
            source.spec_width() as int,
            source.spec_height() as int,
            width as int,
            height as int,
        ),
        out matches Some(filled) ==> {
            &&& filled.spec_width() == width
            &&& filled.spec_height() == height
            &&& filled.wf()
        },
{
    if can_resize_to_fill(source.width(), source.height(), width, height) {
        let samples: Vec<u8> = lanczos_resize_to_fill(
            source.pixels(),
            source.width(),
            source.height(),
            width,
            height,
        );
        Some(Raster::from_samples(width, height, samples))
    } else {
        None
    }
}

} // verus!
