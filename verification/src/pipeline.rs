//! From a decoded picture to what is shown: a main image bounded in size and
//! a backdrop of fixed size, blurred and darkened.

use crate::blur::{blur_repeatedly, box_blur_passes};
use crate::darken::{darken, darkened};
use crate::fit::{lemma_scaled_dimensions_bound, longer_side, scale_to_fit, scaled_dimensions};
use crate::metadata::ArtworkMetadata;
use crate::raster::{sample_count, Raster};
use crate::resample::{
    can_resize_exact, can_resize_to_fill, fill_fits, resample_fits, resize_exact, resize_to_fill,
};
use vstd::prelude::*;

verus! {

/// The numbers that steer the pipeline.
#[derive(Clone, Copy)]
pub struct PipelineConfig {
    /// Longest side that the main image may have.
    pub max_dimension: u32,
    /// Width of the backdrop.
    pub backdrop_width: u32,
    /// Height of the backdrop.
    pub backdrop_height: u32,
    /// Radius of the box blur, in pixels.
    pub blur_radius: u32,
    /// How many times the backdrop is blurred.
    pub blur_passes: u32,
    /// Share of its brightness that the backdrop keeps, in hundredths.
    pub darken_percent: u8,
}

/// The configuration used where none is given.
pub open spec fn default_config() -> PipelineConfig {
    PipelineConfig {
        max_dimension: 2048,
        backdrop_width: 640,
        backdrop_height: 360,
        blur_radius: 10,
        blur_passes: 3,
        darken_percent: 60,
    }
}

impl Default for PipelineConfig {
    fn default() -> (out: Self)
        ensures
            out == default_config(),
    {
        PipelineConfig {
            max_dimension: 2048,
            backdrop_width: 640,
            backdrop_height: 360,
            blur_radius: 10,
            blur_passes: 3,
            darken_percent: 60,
        }
    }
}

/// A picture made ready for display.
pub struct ProcessedImage {
    /// The picture itself, no side longer than the configured maximum.
    pub main_image: Raster,
    /// The blurred, darkened backdrop.
    pub blurred_image: Raster,
    /// What is known about the picture.
    pub metadata: ArtworkMetadata,
}

impl Clone for ProcessedImage {
    fn clone(&self) -> (out: Self)
        ensures
            out.main_image@ == self.main_image@,
            out.main_image.spec_width() == self.main_image.spec_width(),
            out.main_image.spec_height() == self.main_image.spec_height(),
            out.blurred_image@ == self.blurred_image@,
            out.blurred_image.spec_width() == self.blurred_image.spec_width(),
            out.blurred_image.spec_height() == self.blurred_image.spec_height(),
            out.metadata@ == self.metadata@,
    {
        ProcessedImage {
            main_image: self.main_image.duplicate(),
            blurred_image: self.blurred_image.duplicate(),
            metadata: self.metadata.clone(),
        }
    }
}

/// The backdrop that comes of a picture already resized to the backdrop's
/// dimensions: blurred the configured number of times, then darkened.
pub open spec fn backdrop_of(filled: Seq<u8>, width: int, height: int, config: PipelineConfig) -> Seq<
    u8,
> {
    darkened(
        box_blur_passes(filled, width, height, config.blur_radius as int, config.blur_passes as nat),
        config.darken_percent,
    )
}

/// The sources that the pipeline has room to work on: not empty, and with
/// room for both resizes.
pub open spec fn can_process(width: int, height: int, config: PipelineConfig) -> bool {
    &&& resample_fits(
        width,
        scaled_dimensions(width, height, config.max_dimension as int).0,
        scaled_dimensions(width, height, config.max_dimension as int).1,
    )
    &&& fill_fits(width, height, config.backdrop_width as int, config.backdrop_height as int)
}

/// What holds of every picture that the pipeline hands out for `source`.
pub open spec fn is_processed(
    out: ProcessedImage,
    source: Raster,
    metadata: ArtworkMetadata,
    config: PipelineConfig,
) -> bool {
    let width = source.spec_width() as int;
    let height = source.spec_height() as int;
    let max_dimension = config.max_dimension as int;
    &&& out.metadata == metadata
    &&& out.main_image.wf()
    &&& (out.main_image.spec_width() as int, out.main_image.spec_height() as int)
        == scaled_dimensions(width, height, max_dimension)
    &&& out.main_image.spec_width() <= config.max_dimension
    &&& out.main_image.spec_height() <= config.max_dimension
    &&& (longer_side(width, height) <= max_dimension ==> out.main_image@ == source@)
    &&& out.blurred_image.wf()
    &&& out.blurred_image.spec_width() == config.backdrop_width
    &&& out.blurred_image.spec_height() == config.backdrop_height
    &&& exists|filled: Seq<u8>|
        filled.len() == sample_count(config.backdrop_width as int, config.backdrop_height as int)
            && out.blurred_image@ == #[trigger] backdrop_of(
            filled,
            config.backdrop_width as int,
            config.backdrop_height as int,
            config,
        )
}

/// Whether the pipeline has room to work on a source of these dimensions.
pub fn is_processable(width: u32, height: u32, config: &PipelineConfig) -> (ok: bool)
    ensures
        ok == can_process(width as int, height as int, *config),
{
    let main: (u32, u32) = scale_to_fit(width, height, config.max_dimension);
    can_resize_exact(width, main.0, main.1) && can_resize_to_fill(
        width,
        height,
        config.backdrop_width,
        config.backdrop_height,
    )
}

/// Turns a picture that already has the backdrop's dimensions into the
/// backdrop: blurs it the configured number of times, each blur on the
/// output of the one before, then darkens the result.
pub fn finish_backdrop(filled: &Raster, config: &PipelineConfig) -> (out: Raster)
    ensures
        out.spec_width() == filled.spec_width(),
        out.spec_height() == filled.spec_height(),
        out.wf(),
        out@ == backdrop_of(
            filled@,
            filled.spec_width() as int,
            filled.spec_height() as int,
            *config,
        ),
{
    let blurred: Raster = blur_repeatedly(filled, config.blur_radius, config.blur_passes);
    darken(blurred, config.darken_percent)
}

/// Prepares a decoded picture for display.
///
/// The main image is the source resized so that its longer side does not
/// exceed the configured maximum; a source that already fits is copied. The
/// backdrop is the source resized to fill the backdrop's dimensions, blurred
/// and darkened. The source is not changed. Where the resampler has no room
/// to work on the source there is no result.
pub fn process_image(source: &Raster, metadata: ArtworkMetadata, config: &PipelineConfig) -> (out:
    Option<ProcessedImage>)
    ensures
        out.is_some() <==> can_process(
            source.spec_width() as int,
            source.spec_height() as int,
            *config,
        ),
        out matches Some(processed) ==> is_processed(processed, *source, metadata, *config),
{
    let main_size: (u32, u32) = scale_to_fit(source.width(), source.height(), config.max_dimension);
    let main_image: Raster = match resize_exact(source, main_size.0, main_size.1) {
        Some(resized) => resized,
        None => {
            return None;
        },
    };
    let filled: Raster = match resize_to_fill(
        source,
        config.backdrop_width,
        config.backdrop_height,
    ) {
        Some(filled) => filled,
        None => {
            return None;
        },
    };
    let blurred_image: Raster = finish_backdrop(&filled, config);
    proof {
        lemma_scaled_dimensions_bound(
            source.spec_width() as int,
            source.spec_height() as int,
            config.max_dimension as int,
        );
    }
    Some(ProcessedImage { main_image, blurred_image, metadata })
}

/// Whatever the source, the main image of a processed picture has no side
/// longer than the configured maximum, and it has the source's dimensions
/// exactly when the source's longer side is within that maximum.
pub proof fn lemma_main_image_bounded(
    out: ProcessedImage,
    source: Raster,
    metadata: ArtworkMetadata,
    config: PipelineConfig,
)
    requires
        is_processed(out, source, metadata, config),
    ensures
        longer_side(out.main_image.spec_width() as int, out.main_image.spec_height() as int)
            <= config.max_dimension,
        (out.main_image.spec_width() == source.spec_width() && out.main_image.spec_height()
            == source.spec_height()) <==> longer_side(
            source.spec_width() as int,
            source.spec_height() as int,
        ) <= config.max_dimension,
{
    lemma_scaled_dimensions_bound(
        source.spec_width() as int,
        source.spec_height() as int,
        config.max_dimension as int,
    );
}

/// Whatever the source, the backdrop of a processed picture has exactly the
/// configured dimensions, and as many samples as those call for.
pub proof fn lemma_backdrop_dimensions(
    out: ProcessedImage,
    source: Raster,
    metadata: ArtworkMetadata,
    config: PipelineConfig,
)
    requires
        is_processed(out, source, metadata, config),
    ensures
        out.blurred_image.spec_width() == config.backdrop_width,
        out.blurred_image.spec_height() == config.backdrop_height,
        out.blurred_image@.len() == sample_count(
            config.backdrop_width as int,
            config.backdrop_height as int,
        ),
{
}

} // verus!
