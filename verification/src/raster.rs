//! Pixel buffers as plain values, and the operations of the `image` crate
//! that the pipeline runs on them: decoding, resampling and luminance
//! reduction.

use vstd::prelude::*;

verus! {

/// Samples per pixel of a buffer holding red, green, blue and alpha.
pub const RGBA_CHANNELS: u8 = 4;

/// Samples per pixel of a buffer holding red, green and blue.
pub const RGB_CHANNELS: u8 = 3;

/// An image in memory: 8-bit samples, row by row, `channels` per pixel.
#[derive(Debug)]
pub struct Raster {
    pub width: u32,
    pub height: u32,
    pub channels: u8,
    pub samples: Vec<u8>,
}

impl Raster {
    /// The buffer holds exactly one sample per channel of each pixel.
    pub open spec fn wf(&self) -> bool {
        &&& self.channels == RGBA_CHANNELS || self.channels == RGB_CHANNELS
        &&& self.samples@.len() == self.width as int * self.height as int * self.channels as int
    }

    /// Makes a buffer of the given dimensions from its samples, or `None`
    /// where the channel count is neither three nor four or the number of
    /// samples does not match.
    pub fn from_samples(width: u32, height: u32, channels: u8, samples: Vec<u8>) -> (r: Option<
        Raster,
    >)
        ensures
            match r {
                Some(img) => {
                    &&& img.wf()
                    &&& img.width == width
                    &&& img.height == height
                    &&& img.channels == channels
                    &&& img.samples@ == samples@
                },
                None => {
                    ||| channels != RGBA_CHANNELS && channels != RGB_CHANNELS
                    ||| samples@.len() != width as int * height as int * channels as int
                },
            },
    {
        if channels != RGBA_CHANNELS && channels != RGB_CHANNELS {
            return None;
        }
        assert(width as int * height as int * channels as int <= 0xffff_ffff * 0xffff_ffff * 4)
            by (nonlinear_arith)
            requires
                0 <= width <= 0xffff_ffff,
                0 <= height <= 0xffff_ffff,
                0 <= channels <= 4,
        ;
        assert(0 <= width as int * height as int <= 0xffff_ffff * 0xffff_ffff) by (nonlinear_arith)
            requires
                0 <= width <= 0xffff_ffff,
                0 <= height <= 0xffff_ffff,
        ;
        let pixels: u128 = (width as u128) * (height as u128);
        let expected: u128 = pixels * (channels as u128);
        if samples.len() as u128 == expected {
            Some(Raster { width, height, channels, samples })
        } else {
            None
        }
    }
}

#[verifier::external_type_specification]
#[verifier::external_body]
pub struct ExImageError(image::ImageError);

/// What `image::load_from_memory` makes of `data`, taken as 8-bit RGBA:
/// width, height and samples, or `None` where the bytes are no image of a
/// format it knows.
pub uninterp spec fn decoded_image(data: Seq<u8>) -> Option<(u32, u32, Seq<u8>)>;

/// Calls `image::load_from_memory`, which guesses the format from the
/// content, and takes the result as 8-bit RGBA.
/// Trusted: the outcome is `decoded_image` of the bytes, and a decoded buffer
/// has four samples per pixel.
#[verifier::external_body]
pub(crate) fn decode_rgba(data: &[u8]) -> (r: Result<Raster, image::ImageError>)
    ensures
        match r {
            Ok(img) => img.wf() && img.channels == RGBA_CHANNELS && decoded_image(data@) == Some(
                (img.width, img.height, img.samples@),
            ),
            Err(_) => decoded_image(data@) is None,
        },
{
    let img = image::load_from_memory(data)?.into_rgba8();
    Ok(Raster { width: img.width(), height: img.height(), channels: RGBA_CHANNELS, samples: img.into_raw() })
}

/// Calls `DynamicImage::resize_exact` with the Lanczos filter of window 3.
/// Trusted: the result has the dimensions asked for. Nothing is claimed of
/// its samples, which come out of floating-point arithmetic.
#[verifier::external_body]
pub(crate) fn resample_lanczos(src: &Raster, width: u32, height: u32) -> (r: Raster)
    requires
        src.wf(),
        src.channels == RGBA_CHANNELS,
        width <= src.width,
        height <= src.height,
    ensures
        r.wf(),
        r.channels == RGBA_CHANNELS,
        r.width == width,
        r.height == height,
{
    let img = image::RgbaImage::from_raw(src.width, src.height, src.samples.clone()).unwrap();
    let out = image::DynamicImage::ImageRgba8(img)
        .resize_exact(width, height, image::imageops::FilterType::Lanczos3)
        .into_rgba8();
    Raster { width: out.width(), height: out.height(), channels: RGBA_CHANNELS, samples: out.into_raw() }
}

/// The samples that `DynamicImage::grayscale` makes of an 8-bit RGBA image
/// of the given width and height, taken as 8-bit RGB.
pub uninterp spec fn luminance_samples(width: u32, height: u32, rgba: Seq<u8>) -> Seq<u8>;

/// Calls `DynamicImage::grayscale` and takes the result as 8-bit RGB.
/// Trusted: the result has the dimensions of the source, three samples per
/// pixel, and the samples that `luminance_samples` names.
#[verifier::external_body]
pub(crate) fn luminance_rgb(src: &Raster) -> (r: Raster)
    requires
        src.wf(),
        src.channels == RGBA_CHANNELS,
    ensures
        r.wf(),
        r.channels == RGB_CHANNELS,
        r.width == src.width,
        r.height == src.height,
        r.samples@ == luminance_samples(src.width, src.height, src.samples@),
{
    let img = image::RgbaImage::from_raw(src.width, src.height, src.samples.clone()).unwrap();
    let out = image::DynamicImage::ImageRgba8(img).grayscale().into_rgb8();
    Raster { width: out.width(), height: out.height(), channels: RGB_CHANNELS, samples: out.into_raw() }
}

/// Calls `ToString::to_string` on an `image::ImageError`: the text of the
/// underlying cause, for a caller to log.
#[verifier::external_body]
pub(crate) fn cause_text(e: &image::ImageError) -> (r: String) {
    e.to_string()
}

} // verus!
