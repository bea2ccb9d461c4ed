//! The codecs an artifact can be written in.

use crate::raster::{Raster, RGB_CHANNELS};
use vstd::prelude::*;

verus! {

/// The largest width or height a JPEG frame can record.
pub const JPEG_MAX_SIDE: u32 = 65535;

/// The largest width or height a WebP frame can record.
pub const WEBP_MAX_SIDE: u32 = 16384;

/// The codec of the final artifact.
#[derive(Clone, Copy, Debug, PartialEq, Eq, Structural)]
pub enum Codec {
    /// Baseline JPEG at the configured quality: readable everywhere.
    Jpeg,
    /// WebP: smaller output. The `image` crate writes it without loss, so
    /// the quality factor does not apply to it.
    WebP,
}

impl Codec {
    /// The canonical file extension, without the dot.
    pub open spec fn extension_spec(self) -> Seq<char> {
        match self {
            Codec::Jpeg => "jpg"@,
            Codec::WebP => "webp"@,
        }
    }

    /// Whether the codec can write an image of these dimensions.
    pub open spec fn can_encode(self, width: u32, height: u32) -> bool {
        match self {
            Codec::Jpeg => jpeg_encodable(width, height),
            Codec::WebP => webp_encodable(width, height),
        }
    }

    /// The canonical file extension, without the dot.
    pub fn extension(self) -> (r: &'static str)
        ensures
            r@ == self.extension_spec(),
    {
        match self {
            Codec::Jpeg => "jpg",
            Codec::WebP => "webp",
        }
    }
}

/// Whether a JPEG frame can have these dimensions.
pub open spec fn jpeg_encodable(width: u32, height: u32) -> bool {
    1 <= width <= JPEG_MAX_SIDE && 1 <= height <= JPEG_MAX_SIDE
}

/// Whether a WebP frame can have these dimensions.
pub open spec fn webp_encodable(width: u32, height: u32) -> bool {
    1 <= width <= WEBP_MAX_SIDE && 1 <= height <= WEBP_MAX_SIDE
}

/// The bytes that the JPEG encoder of the `image` crate writes for an 8-bit
/// RGB image at a quality factor.
pub uninterp spec fn jpeg_bytes(width: u32, height: u32, rgb: Seq<u8>, quality: u8) -> Seq<u8>;

/// The bytes that the lossless WebP encoder of the `image` crate writes for
/// an 8-bit RGB image.
pub uninterp spec fn webp_bytes(width: u32, height: u32, rgb: Seq<u8>) -> Seq<u8>;

/// The bytes of an 8-bit RGB image in the chosen codec.
pub open spec fn encoded_bytes(codec: Codec, width: u32, height: u32, rgb: Seq<u8>, quality: u8) -> Seq<
    u8,
> {
    match codec {
        Codec::Jpeg => jpeg_bytes(width, height, rgb, quality),
        Codec::WebP => webp_bytes(width, height, rgb),
    }
}

/// Calls `JpegEncoder::new_with_quality` on a buffer in memory, then `encode`
/// with the colour type `Rgb8`. The encoder takes a quality outside 1..=100
/// as the nearest bound.
/// Trusted: encoding succeeds exactly when both sides lie in 1..=65535; the
/// encoder refuses every other size, and writing to memory does not fail.
/// What it writes is `jpeg_bytes` of the image and the quality.
#[verifier::external_body]
pub(crate) fn encode_jpeg(img: &Raster, quality: u8) -> (r: Result<Vec<u8>, image::ImageError>)
    requires
        img.wf(),
        img.channels == RGB_CHANNELS,
    ensures
        r is Ok <==> jpeg_encodable(img.width, img.height),
        r matches Ok(bytes) ==> bytes@ == jpeg_bytes(img.width, img.height, img.samples@, quality),
{
    let mut out: Vec<u8> = Vec::new();
    image::codecs::jpeg::JpegEncoder::new_with_quality(&mut out, quality).encode(
        &img.samples,
        img.width,
        img.height,
        image::ExtendedColorType::Rgb8,
    )?;
    Ok(out)
}

/// Calls `WebPEncoder::new_lossless` on a buffer in memory, then `encode`
/// with the colour type `Rgb8`.
/// Trusted: encoding succeeds exactly when both sides lie in 1..=16384; the
/// encoder refuses every other size, and writing to memory does not fail.
/// What it writes is `webp_bytes` of the image.
#[verifier::external_body]
pub(crate) fn encode_webp(img: &Raster) -> (r: Result<Vec<u8>, image::ImageError>)
    requires
        img.wf(),
        img.channels == RGB_CHANNELS,
    ensures
        r is Ok <==> webp_encodable(img.width, img.height),
        r matches Ok(bytes) ==> bytes@ == webp_bytes(img.width, img.height, img.samples@),
{
    let mut out: Vec<u8> = Vec::new();
    image::codecs::webp::WebPEncoder::new_lossless(&mut out).encode(
        &img.samples,
        img.width,
        img.height,
        image::ExtendedColorType::Rgb8,
    )?;
    Ok(out)
}

/// Encodes a three-channel buffer with the chosen codec. The quality factor
/// applies to JPEG only.
pub fn encode(img: &Raster, codec: Codec, quality: u8) -> (r: Result<Vec<u8>, image::ImageError>)
    requires
        img.wf(),
        img.channels == RGB_CHANNELS,
    ensures
        r is Ok <==> codec.can_encode(img.width, img.height),
        r matches Ok(bytes) ==> bytes@ == encoded_bytes(
            codec,
            img.width,
            img.height,
            img.samples@,
            quality,
        ),
{
    match codec {
        Codec::Jpeg => encode_jpeg(img, quality),
        Codec::WebP => encode_webp(img),
    }
}

} // verus!
