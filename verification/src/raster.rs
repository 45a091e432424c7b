//! RGBA pixel grids stored row by row, four 8-bit samples per pixel.

use vstd::prelude::*;

verus! {

/// Number of samples in a grid of `width` by `height` pixels.
pub open spec fn sample_count(width: int, height: int) -> int {
    4 * (width * height)
}

/// Position of channel `channel` of the pixel at column `x`, row `y`.
pub open spec fn sample_index(width: int, x: int, y: int, channel: int) -> int {
    4 * (y * width + x) + channel
}

/// Column of the pixel that sample `i` belongs to.
pub open spec fn sample_x(width: int, i: int) -> int {
    (i / 4) % width
}

/// Row of the pixel that sample `i` belongs to.
pub open spec fn sample_y(width: int, i: int) -> int {
    (i / 4) / width
}

/// Channel (0 red, 1 green, 2 blue, 3 alpha) that sample `i` holds.
pub open spec fn sample_channel(i: int) -> int {
    i % 4
}

/// Every pixel inside the grid has its samples inside the buffer.
pub proof fn lemma_sample_index_in_range(width: int, height: int, x: int, y: int, channel: int)
    requires
        0 <= x < width,
        0 <= y < height,
        0 <= channel < 4,
    ensures
        0 <= sample_index(width, x, y, channel) < sample_count(width, height),
{
    assert(0 <= y * width && y * width + width <= width * height) by (nonlinear_arith)
        requires
            0 <= y < height,
            0 < width,
    ;
}

/// `sample_x`, `sample_y` and `sample_channel` undo `sample_index`.
pub proof fn lemma_sample_coordinates(width: int, x: int, y: int, channel: int)
    requires
        0 <= x < width,
        0 <= y,
        0 <= channel < 4,
    ensures
        sample_x(width, sample_index(width, x, y, channel)) == x,
        sample_y(width, sample_index(width, x, y, channel)) == y,
        sample_channel(sample_index(width, x, y, channel)) == channel,
{
    let pixel = y * width + x;
    let i = sample_index(width, x, y, channel);
    assert(0 <= y * width) by (nonlinear_arith)
        requires
            0 <= y,
            0 < width,
    ;
    assert(i / 4 == pixel && i % 4 == channel);
    vstd::arithmetic::div_mod::lemma_fundamental_div_mod_converse(pixel, width, y, x);
}

/// `sample_index` undoes `sample_x`, `sample_y` and `sample_channel`.
pub proof fn lemma_sample_position(width: int, height: int, i: int)
    requires
        0 <= i < sample_count(width, height),
        0 <= width,
        0 <= height,
    ensures
        0 <= sample_x(width, i) < width,
        0 <= sample_y(width, i) < height,
        0 <= sample_channel(i) < 4,
        sample_index(width, sample_x(width, i), sample_y(width, i), sample_channel(i)) == i,
{
    let pixel = i / 4;
    assert(width > 0) by (nonlinear_arith)
        requires
            0 < 4 * (width * height),
            0 <= width,
    ;
    assert(0 <= pixel < width * height);
    vstd::arithmetic::div_mod::lemma_fundamental_div_mod(pixel, width);
    vstd::arithmetic::div_mod::lemma_mod_bound(pixel, width);
    let row = pixel / width;
    let column = pixel % width;
    assert(0 <= row < height) by (nonlinear_arith)
        requires
            pixel == width * row + column,
            0 <= column < width,
            0 <= pixel < width * height,
            0 <= height,
    ;
    assert(row * width == width * row) by (nonlinear_arith);
}

/// A grid of RGBA pixels. The buffer always holds exactly four samples for
/// each of its `width * height` pixels.
pub struct Raster {
    width: u32,
    height: u32,
    pixels: Vec<u8>,
}

impl View for Raster {
    type V = Seq<u8>;

    closed spec fn view(&self) -> Seq<u8> {
        self.pixels@
    }
}

impl Raster {
    /// Width in pixels.
    pub closed spec fn spec_width(&self) -> u32 {
        self.width
    }

    /// Height in pixels.
    pub closed spec fn spec_height(&self) -> u32 {
        self.height
    }

    /// The buffer length matches the dimensions.
    pub open spec fn wf(&self) -> bool {
        self@.len() == sample_count(self.spec_width() as int, self.spec_height() as int)
    }

    #[verifier::type_invariant]
    spec fn well_formed(self) -> bool {
        self.wf()
    }

    /// The sample of channel `channel` at column `x`, row `y`.
    pub open spec fn spec_sample(&self, x: int, y: int, channel: int) -> u8 {
        self@[sample_index(self.spec_width() as int, x, y, channel)]
    }

    /// Wraps a buffer as a grid, if it has exactly the samples the dimensions call for.
    pub fn new(width: u32, height: u32, pixels: Vec<u8>) -> (out: Option<Raster>)
        ensures
            out.is_some() <==> pixels@.len() == sample_count(width as int, height as int),
            out matches Some(r) ==> r@ == pixels@ && r.spec_width() == width && r.spec_height()
                == height && r.wf(),
    {
        assert(width as int * height as int <= 0xffff_ffff * 0xffff_ffff) by (nonlinear_arith)
            requires
                0 <= width as int <= 0xffff_ffff,
                0 <= height as int <= 0xffff_ffff,
        ;
        let wanted: u128 = 4 * (width as u128 * height as u128);
        if pixels.len() as u128 == wanted {
            Some(Raster { width, height, pixels })
        } else {
            None
        }
    }

    /// Wraps a buffer that is known to have the right length.
    pub(crate) fn from_samples(width: u32, height: u32, pixels: Vec<u8>) -> (out: Raster)
        requires
            pixels@.len() == sample_count(width as int, height as int),
        ensures
            out@ == pixels@,
            out.spec_width() == width,
            out.spec_height() == height,
            out.wf(),
    {
        Raster { width, height, pixels }
    }

    /// Width in pixels.
    #[verifier::when_used_as_spec(spec_width)]
    pub fn width(&self) -> (w: u32)
        ensures
            w == self.spec_width(),
    {
        self.width
    }

    /// Height in pixels.
    #[verifier::when_used_as_spec(spec_height)]
    pub fn height(&self) -> (h: u32)
        ensures
            h == self.spec_height(),
    {
        self.height
    }

    /// The samples, row by row, ready to hand to a texture upload.
    pub fn pixels(&self) -> (samples: &Vec<u8>)
        ensures
            samples@ == self@,
            self.wf(),
    {
        proof {
            use_type_invariant(self);
        }
        &self.pixels
    }

    /// Gives up the grid for its buffer.
    pub fn into_pixels(self) -> (samples: Vec<u8>)
        ensures
            samples@ == self@,
            self.wf(),
    {
        proof {
            use_type_invariant(&self);
        }
        self.pixels
    }

    /// Reads one sample, or nothing when the position lies outside the grid.
    pub fn sample(&self, x: u32, y: u32, channel: u8) -> (out: Option<u8>)
        ensures
            out.is_some() <==> x < self.spec_width() && y < self.spec_height() && channel < 4,
            out matches Some(v) ==> v == self.spec_sample(x as int, y as int, channel as int),
    {
        if x < self.width && y < self.height && channel < 4 {
            proof {
                use_type_invariant(self);
            }
            let total: usize = self.pixels.len();
            assert(total == sample_count(self.width as int, self.height as int));
            let at: usize = sample_offset(self.width, self.height, x, y, channel);
            Some(self.pixels[at])
        } else {
            None
        }
    }

    /// An independent copy of the grid.
    pub fn duplicate(&self) -> (out: Raster)
        ensures
            out@ == self@,
            out.spec_width() == self.spec_width(),
            out.spec_height() == self.spec_height(),
            out.wf(),
    {
        proof {
            use_type_invariant(self);
        }
        let pixels: Vec<u8> = self.pixels.clone();
        Raster { width: self.width, height: self.height, pixels }
    }
}

/// Buffer offset of a sample inside a grid whose buffer fits in memory.
pub(crate) fn sample_offset(width: u32, height: u32, x: u32, y: u32, channel: u8) -> (at: usize)
    requires
        x < width,
        y < height,
        channel < 4,
        sample_count(width as int, height as int) <= usize::MAX,
    ensures
        at == sample_index(width as int, x as int, y as int, channel as int),
        at < sample_count(width as int, height as int),
{
    proof {
        lemma_sample_index_in_range(
            width as int,
            height as int,
            x as int,
            y as int,
            channel as int,
        );
        assert(0 <= y as int * width as int && y as int * width as int + width as int
            <= width as int * height as int) by (nonlinear_arith)
            requires
                0 <= y as int,
                (y as int) < height as int,
                0 < width as int,
        ;
    }
    4 * (y as usize * width as usize + x as usize) + channel as usize
}

} // verus!
