//! Darkening: every colour sample is scaled down to a percentage of itself,
//! rounded toward zero. Alpha is left alone.

use crate::raster::{sample_channel, Raster};
use vstd::prelude::*;

verus! {

/// A colour sample scaled to `percent` hundredths of itself, fraction dropped,
/// held at 255 where a percentage above 100 would carry it further.
pub open spec fn darkened_channel(value: u8, percent: u8) -> u8 {
    let scaled = (value as int * percent as int) / 100;
    if scaled > 255 {
        255u8
    } else {
        scaled as u8
    }
}

/// What darkening leaves at position `i`.
pub open spec fn darkened_sample(px: Seq<u8>, percent: u8, i: int) -> u8 {
    if sample_channel(i) == 3 {
        px[i]
    } else {
        darkened_channel(px[i], percent)
    }
}

/// The whole buffer darkened.
pub open spec fn darkened(px: Seq<u8>, percent: u8) -> Seq<u8> {
    Seq::new(px.len(), |i: int| darkened_sample(px, percent, i))
}

/// A darkened colour sample is its share of what it was, rounded down by
/// less than one step, and never brighter than it was.
pub proof fn lemma_darkened_channel_bound(value: u8, percent: u8)
    requires
        percent <= 100,
    ensures
        100 * darkened_channel(value, percent) <= percent * value,
        percent * value < 100 * darkened_channel(value, percent) + 100,
        darkened_channel(value, percent) <= value,
{
    let product = value as int * percent as int;
    assert(0 <= product <= 100 * value) by (nonlinear_arith)
        requires
            product == value as int * percent as int,
            0 <= percent <= 100,
            0 <= value,
    ;
    assert(percent * value == product) by (nonlinear_arith)
        requires
            product == value as int * percent as int,
    ;
}

/// After darkening, every red, green and blue sample is at most its share of
/// what it was, and every alpha sample is what it was.
pub proof fn lemma_darkened_never_brighter(px: Seq<u8>, percent: u8, i: int)
    requires
        0 <= i < px.len(),
        percent <= 100,
    ensures
        sample_channel(i) == 3 ==> darkened(px, percent)[i] == px[i],
        sample_channel(i) != 3 ==> 100 * darkened(px, percent)[i] <= percent * px[i],
        darkened(px, percent)[i] <= px[i],
{
    lemma_darkened_channel_bound(px[i], percent);
}

/// Scales one colour sample.
pub fn darken_channel(value: u8, percent: u8) -> (out: u8)
    ensures
        out == darkened_channel(value, percent),
{
    assert(value as int * percent as int <= 255 * 255) by (nonlinear_arith)
        requires
            0 <= value as int <= 255,
            0 <= percent as int <= 255,
    ;
    let scaled: u32 = (value as u32 * percent as u32) / 100;
    if scaled > 255 {
        255
    } else {
        scaled as u8
    }
}

/// Darkens an image: red, green and blue of every pixel are scaled, alpha is
/// kept.
pub fn darken(image: Raster, percent: u8) -> (out: Raster)
    ensures
        out.spec_width() == image.spec_width(),
        out.spec_height() == image.spec_height(),
        out@ == darkened(image@, percent),
        out.wf(),
{
    let width: u32 = image.width();
    let height: u32 = image.height();
    let ghost before = image@;
    let mut samples: Vec<u8> = image.into_pixels();
    let total: usize = samples.len();
    let mut at: usize = 0;
    while at < total
        invariant
            total == before.len(),
            samples@.len() == before.len(),
            at <= total,
            forall|i: int|
                0 <= i < samples@.len() ==> #[trigger] samples@[i] == (if i < at {
                    darkened_sample(before, percent, i)
                } else {
                    before[i]
                }),
        decreases total - at,
    {
        if at % 4 != 3 {
            let value: u8 = darken_channel(samples[at], percent);
            samples.set(at, value);
        }
        at = at + 1;
    }
    assert(samples@ =~= darkened(before, percent));
    Raster::from_samples(width, height, samples)
}

} // verus!
