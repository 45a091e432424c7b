//! Separable box blur with clamped edges.
//!
//! One blur is two one-dimensional passes: every colour sample becomes the
//! mean of the `2 * radius + 1` samples around it along its row, then the same
//! along its column, on the output of the first pass. Neighbours that would
//! fall outside the grid are replaced by the nearest sample inside it. Alpha
//! is left alone.

use crate::raster::{
    lemma_sample_coordinates, lemma_sample_index_in_range, lemma_sample_position, sample_channel,
    sample_count, sample_index, sample_offset, sample_x, sample_y, Raster,
};
use vstd::prelude::*;

verus! {

/// `v` pulled into `0..len`.
pub open spec fn clamp_coord(v: int, len: int) -> int {
    if v < 0 {
        0
    } else if v >= len {
        len - 1
    } else {
        v
    }
}

/// Number of samples that one mean is taken over.
pub open spec fn window_len(radius: int) -> int {
    2 * radius + 1
}

/// Where tap number `tap` (0 is the far left or top) of the window around
/// `(x, y)` reads from.
pub open spec fn tap_index(
    width: int,
    height: int,
    x: int,
    y: int,
    channel: int,
    radius: int,
    tap: int,
    vertical: bool,
) -> int {
    if vertical {
        sample_index(width, x, clamp_coord(y - radius + tap, height), channel)
    } else {
        sample_index(width, clamp_coord(x - radius + tap, width), y, channel)
    }
}

/// Sum of the first `taps` samples of the window around `(x, y)`.
pub open spec fn window_sum(
    px: Seq<u8>,
    width: int,
    height: int,
    x: int,
    y: int,
    channel: int,
    radius: int,
    taps: int,
    vertical: bool,
) -> int
    decreases taps,
{
    if taps <= 0 {
        0
    } else {
        window_sum(px, width, height, x, y, channel, radius, taps - 1, vertical) + px[tap_index(
            width,
            height,
            x,
            y,
            channel,
            radius,
            taps - 1,
            vertical,
        )] as int
    }
}

/// What one pass leaves at position `i`: alpha as it was, a colour sample
/// replaced by the truncated mean of its window.
pub open spec fn blurred_sample(
    px: Seq<u8>,
    width: int,
    height: int,
    radius: int,
    vertical: bool,
    i: int,
) -> u8 {
    if sample_channel(i) == 3 {
        px[i]
    } else {
        (window_sum(
            px,
            width,
            height,
            sample_x(width, i),
            sample_y(width, i),
            sample_channel(i),
            radius,
            window_len(radius),
            vertical,
        ) / window_len(radius)) as u8
    }
}

/// One pass along the rows (`vertical` false) or the columns (`vertical` true).
pub open spec fn blur_axis(px: Seq<u8>, width: int, height: int, radius: int, vertical: bool) -> Seq<
    u8,
> {
    Seq::new(px.len(), |i: int| blurred_sample(px, width, height, radius, vertical, i))
}

/// One full blur: rows first, then columns on the result.
pub open spec fn box_blur(px: Seq<u8>, width: int, height: int, radius: int) -> Seq<u8> {
    blur_axis(blur_axis(px, width, height, radius, false), width, height, radius, true)
}

/// `passes` full blurs, each fed with the output of the one before.
pub open spec fn box_blur_passes(
    px: Seq<u8>,
    width: int,
    height: int,
    radius: int,
    passes: nat,
) -> Seq<u8>
    decreases passes,
{
    if passes == 0 {
        px
    } else {
        box_blur(box_blur_passes(px, width, height, radius, (passes - 1) as nat), width, height, radius)
    }
}

/// Every pixel of the buffer is `(red, green, blue, alpha)`.
pub open spec fn is_uniform(px: Seq<u8>, red: u8, green: u8, blue: u8, alpha: u8) -> bool {
    forall|i: int|
        0 <= i < px.len() ==> #[trigger] px[i] == (if sample_channel(i) == 0 {
            red
        } else if sample_channel(i) == 1 {
            green
        } else if sample_channel(i) == 2 {
            blue
        } else {
            alpha
        })
}

/// The taps of a window inside the grid all read inside the buffer.
proof fn lemma_tap_in_range(
    width: int,
    height: int,
    x: int,
    y: int,
    channel: int,
    radius: int,
    tap: int,
    vertical: bool,
)
    requires
        0 <= x < width,
        0 <= y < height,
        0 <= channel < 4,
    ensures
        0 <= tap_index(width, height, x, y, channel, radius, tap, vertical) < sample_count(
            width,
            height,
        ),
        sample_channel(tap_index(width, height, x, y, channel, radius, tap, vertical)) == channel,
{
    if vertical {
        let row = clamp_coord(y - radius + tap, height);
        lemma_sample_index_in_range(width, height, x, row, channel);
        lemma_sample_coordinates(width, x, row, channel);
    } else {
        let column = clamp_coord(x - radius + tap, width);
        lemma_sample_index_in_range(width, height, column, y, channel);
        lemma_sample_coordinates(width, column, y, channel);
    }
}

/// The truncated mean of at most 255 per tap is itself at most 255.
proof fn lemma_mean_fits(sum: int, taps: int)
    requires
        0 < taps,
        0 <= sum <= 255 * taps,
    ensures
        0 <= sum / taps <= 255,
{
    assert(0 <= sum / taps <= 255) by (nonlinear_arith)
        requires
            0 < taps,
            0 <= sum <= 255 * taps,
    ;
}

/// Over a uniform image every window sums to the tap count times the colour.
proof fn lemma_uniform_window_sum(
    px: Seq<u8>,
    width: int,
    height: int,
    x: int,
    y: int,
    channel: int,
    radius: int,
    taps: int,
    vertical: bool,
)
    requires
        px.len() == sample_count(width, height),
        0 <= x < width,
        0 <= y < height,
        0 <= channel < 4,
        0 <= taps,
        forall|i: int, j: int|
            0 <= i < px.len() && 0 <= j < px.len() && sample_channel(i) == sample_channel(j)
                ==> px[i] == px[j],
    ensures
        window_sum(px, width, height, x, y, channel, radius, taps, vertical) == taps * px[sample_index(
            width,
            x,
            y,
            channel,
        )],
    decreases taps,
{
    let here = sample_index(width, x, y, channel);
    if taps > 0 {
        lemma_uniform_window_sum(px, width, height, x, y, channel, radius, taps - 1, vertical);
        lemma_tap_in_range(width, height, x, y, channel, radius, taps - 1, vertical);
        lemma_sample_index_in_range(width, height, x, y, channel);
        lemma_sample_coordinates(width, x, y, channel);
        let there = tap_index(width, height, x, y, channel, radius, taps - 1, vertical);
        assert(px[there] == px[here]);
        assert((taps - 1) * px[here] + px[here] == taps * px[here]) by (nonlinear_arith);
    } else {
        assert(0 * px[here] == 0);
    }
}

/// With clamped edges a pass leaves an image alone whose pixels all share one
/// colour: nothing shifts at the borders.
pub proof fn lemma_uniform_pass_is_identity(
    px: Seq<u8>,
    width: int,
    height: int,
    radius: int,
    vertical: bool,
    red: u8,
    green: u8,
    blue: u8,
    alpha: u8,
)
    requires
        px.len() == sample_count(width, height),
        0 <= width,
        0 <= height,
        0 <= radius,
        is_uniform(px, red, green, blue, alpha),
    ensures
        blur_axis(px, width, height, radius, vertical) == px,
{
    let out = blur_axis(px, width, height, radius, vertical);
    assert forall|i: int| 0 <= i < px.len() implies out[i] == px[i] by {
        lemma_sample_position(width, height, i);
        let x = sample_x(width, i);
        let y = sample_y(width, i);
        let channel = sample_channel(i);
        if channel != 3 {
            let taps = window_len(radius);
            lemma_uniform_window_sum(px, width, height, x, y, channel, radius, taps, vertical);
            let sum = window_sum(px, width, height, x, y, channel, radius, taps, vertical);
            assert(sum / taps == px[i] as int) by (nonlinear_arith)
                requires
                    sum == taps * px[i],
                    0 < taps,
            ;
        }
    }
    assert(out =~= px);
}

/// A uniform-colour image comes out of any number of blurs exactly as it went
/// in.
pub proof fn lemma_uniform_image_is_fixed(
    px: Seq<u8>,
    width: int,
    height: int,
    radius: int,
    passes: nat,
    red: u8,
    green: u8,
    blue: u8,
    alpha: u8,
)
    requires
        px.len() == sample_count(width, height),
        0 <= width,
        0 <= height,
        0 <= radius,
        is_uniform(px, red, green, blue, alpha),
    ensures
        box_blur_passes(px, width, height, radius, passes) == px,
    decreases passes,
{
    if passes > 0 {
        lemma_uniform_image_is_fixed(
            px,
            width,
            height,
            radius,
            (passes - 1) as nat,
            red,
            green,
            blue,
            alpha,
        );
        lemma_uniform_pass_is_identity(px, width, height, radius, false, red, green, blue, alpha);
        lemma_uniform_pass_is_identity(px, width, height, radius, true, red, green, blue, alpha);
    }
}

/// Whether the pass has already written position `i` when it stands at
/// channel `channel` of the pixel at `(x, y)`.
spec fn visited(width: int, i: int, x: int, y: int, channel: int) -> bool {
    sample_y(width, i) < y || (sample_y(width, i) == y && (sample_x(width, i) < x || (sample_x(
        width,
        i,
    ) == x && sample_channel(i) < channel)))
}

/// The buffer of a pass that stands at channel `channel` of the pixel at
/// `(x, y)`: blurred up to there, untouched from there on.
spec fn pass_progress(
    source: Seq<u8>,
    out: Seq<u8>,
    width: int,
    height: int,
    radius: int,
    vertical: bool,
    x: int,
    y: int,
    channel: int,
) -> bool {
    &&& out.len() == source.len()
    &&& forall|i: int|
        0 <= i < out.len() ==> #[trigger] out[i] == (if visited(width, i, x, y, channel) {
            blurred_sample(source, width, height, radius, vertical, i)
        } else {
            source[i]
        })
}

/// The coordinate that tap number `tap` of a window centred on `pos` reads
/// along an axis of `len` samples.
fn clamped_tap(pos: u32, tap: u64, radius: u32, len: u32) -> (out: u32)
    requires
        pos < len,
        tap <= 2 * radius,
    ensures
        out == clamp_coord(pos - radius + tap, len as int),
        out < len,
{
    let shifted: u64 = pos as u64 + tap;
    if shifted < radius as u64 {
        0
    } else {
        let moved: u64 = shifted - radius as u64;
        if moved >= len as u64 {
            len - 1
        } else {
            moved as u32
        }
    }
}

/// Sum of the whole window around `(x, y)` in one channel.
fn window_total(
    source: &Vec<u8>,
    width: u32,
    height: u32,
    x: u32,
    y: u32,
    channel: u8,
    radius: u32,
    vertical: bool,
) -> (sum: u64)
    requires
        source@.len() == sample_count(width as int, height as int),
        x < width,
        y < height,
        channel < 4,
    ensures
        sum == window_sum(
            source@,
            width as int,
            height as int,
            x as int,
            y as int,
            channel as int,
            radius as int,
            window_len(radius as int),
            vertical,
        ),
        sum <= 255 * window_len(radius as int),
{
    let total: usize = source.len();
    let taps: u64 = 2 * (radius as u64) + 1;
    let mut sum: u64 = 0;
    let mut tap: u64 = 0;
    while tap < taps
        invariant
            total == source@.len(),
            total == sample_count(width as int, height as int),
            x < width,
            y < height,
            channel < 4,
            taps == window_len(radius as int),
            tap <= taps,
            sum <= 255 * tap,
            sum == window_sum(
                source@,
                width as int,
                height as int,
                x as int,
                y as int,
                channel as int,
                radius as int,
                tap as int,
                vertical,
            ),
        decreases taps - tap,
    {
        let at: usize = if vertical {
            let row: u32 = clamped_tap(y, tap, radius, height);
            sample_offset(width, height, x, row, channel)
        } else {
            let column: u32 = clamped_tap(x, tap, radius, width);
            sample_offset(width, height, column, y, channel)
        };
        sum = sum + source[at] as u64;
        tap = tap + 1;
    }
    sum
}

/// One pass over a buffer, along the rows or along the columns.
fn blur_pass(source: &Vec<u8>, width: u32, height: u32, radius: u32, vertical: bool) -> (out: Vec<
    u8,
>)
    requires
        source@.len() == sample_count(width as int, height as int),
    ensures
        out@ == blur_axis(source@, width as int, height as int, radius as int, vertical),
{
    let total: usize = source.len();
    let taps: u64 = 2 * (radius as u64) + 1;
    let mut out: Vec<u8> = source.clone();
    let mut y: u32 = 0;
    while y < height
        invariant
            total == source@.len(),
            total == sample_count(width as int, height as int),
            taps == window_len(radius as int),
            y <= height,
            pass_progress(
                source@,
                out@,
                width as int,
                height as int,
                radius as int,
                vertical,
                0,
                y as int,
                0,
            ),
        decreases height - y,
    {
        let mut x: u32 = 0;
        while x < width
            invariant
                total == source@.len(),
                total == sample_count(width as int, height as int),
                taps == window_len(radius as int),
                y < height,
                x <= width,
                pass_progress(
                    source@,
                    out@,
                    width as int,
                    height as int,
                    radius as int,
                    vertical,
                    x as int,
                    y as int,
                    0,
                ),
            decreases width - x,
        {
            let mut channel: u8 = 0;
            while channel < 3
                invariant
                    total == source@.len(),
                    total == sample_count(width as int, height as int),
                    taps == window_len(radius as int),
                    y < height,
                    x < width,
                    channel <= 3,
                    pass_progress(
                        source@,
                        out@,
                        width as int,
                        height as int,
                        radius as int,
                        vertical,
                        x as int,
                        y as int,
                        channel as int,
                    ),
                decreases 3 - channel,
            {
                let sum: u64 = window_total(source, width, height, x, y, channel, radius, vertical);
                proof {
                    lemma_mean_fits(sum as int, taps as int);
                }
                let mean: u8 = (sum / taps) as u8;
                let at: usize = sample_offset(width, height, x, y, channel);
                out.set(at, mean);
                proof {
                    lemma_sample_coordinates(width as int, x as int, y as int, channel as int);
                    assert forall|i: int| 0 <= i < out@.len() implies #[trigger] out@[i] == (
                    if visited(width as int, i, x as int, y as int, channel + 1) {
                        blurred_sample(
                            source@,
                            width as int,
                            height as int,
                            radius as int,
                            vertical,
                            i,
                        )
                    } else {
                        source@[i]
                    }) by {
                        lemma_sample_position(width as int, height as int, i);
                    }
                }
                channel = channel + 1;
            }
            proof {
                assert forall|i: int| 0 <= i < out@.len() implies #[trigger] out@[i] == (if visited(
                    width as int,
                    i,
                    x + 1,
                    y as int,
                    0,
                ) {
                    blurred_sample(source@, width as int, height as int, radius as int, vertical, i)
                } else {
                    source@[i]
                }) by {
                    lemma_sample_position(width as int, height as int, i);
                }
            }
            x = x + 1;
        }
        proof {
            assert forall|i: int| 0 <= i < out@.len() implies #[trigger] out@[i] == (if visited(
                width as int,
                i,
                0,
                y + 1,
                0,
            ) {
                blurred_sample(source@, width as int, height as int, radius as int, vertical, i)
            } else {
                source@[i]
            }) by {
                lemma_sample_position(width as int, height as int, i);
            }
        }
        y = y + 1;
    }
    proof {
        let wanted = blur_axis(source@, width as int, height as int, radius as int, vertical);
        assert forall|i: int| 0 <= i < out@.len() implies out@[i] == wanted[i] by {
            lemma_sample_position(width as int, height as int, i);
        }
        assert(out@ =~= wanted);
    }
    out
}

/// Blurs an image once: a pass along the rows, then a pass along the columns
/// of what the first pass produced. The input is left as it was.
pub fn fast_box_blur(image: &Raster, radius: u32) -> (out: Raster)
    ensures
        out.spec_width() == image.spec_width(),
        out.spec_height() == image.spec_height(),
        out@ == box_blur(
            image@,
            image.spec_width() as int,
            image.spec_height() as int,
            radius as int,
        ),
        out.wf(),
{
    let width: u32 = image.width();
    let height: u32 = image.height();
    let source: &Vec<u8> = image.pixels();
    let rows: Vec<u8> = blur_pass(source, width, height, radius, false);
    let both: Vec<u8> = blur_pass(&rows, width, height, radius, true);
    Raster::from_samples(width, height, both)
}

/// Blurs an image `passes` times over, each blur working on the output of the
/// one before.
pub fn blur_repeatedly(image: &Raster, radius: u32, passes: u32) -> (out: Raster)
    ensures
        out.spec_width() == image.spec_width(),
        out.spec_height() == image.spec_height(),
        out@ == box_blur_passes(
            image@,
            image.spec_width() as int,
            image.spec_height() as int,
            radius as int,
            passes as nat,
        ),
        out.wf(),
{
    let mut out: Raster = image.duplicate();
    let mut done: u32 = 0;
    while done < passes
        invariant
            done <= passes,
            out.spec_width() == image.spec_width(),
            out.spec_height() == image.spec_height(),
            out.wf(),
            out@ == box_blur_passes(
                image@,
                image.spec_width() as int,
                image.spec_height() as int,
                radius as int,
                done as nat,
            ),
        decreases passes - done,
    {
        out = fast_box_blur(&out, radius);
        done = done + 1;
    }
    out
}

} // verus!
