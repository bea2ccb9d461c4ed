//! The normalisation pipeline: validate the source, decode, compute the
//! target geometry, resample, reduce to luminance, encode, hash and report.

use crate::codec::{encode, encoded_bytes, Codec};
use crate::digest::{content_hash, hash_hex};
use crate::geometry::{lemma_target_bounded, long_side, target_dimensions, target_size};
use crate::raster::{
    cause_text, decode_rgba, decoded_image, luminance_rgb, luminance_samples, resample_lanczos,
    Raster, RGBA_CHANNELS,
};
use vstd::prelude::*;
use vstd::string::StringExecFns;

verus! {

/// The maximum dimension of a configuration made by `NormalizerConfig::new`.
pub const DEFAULT_MAX_DIMENSION: u32 = 1536;

/// The quality factor of a configuration made by `NormalizerConfig::new`.
pub const DEFAULT_QUALITY: u8 = 75;

/// Why a normalisation failed.
#[derive(Clone, Copy, Debug, PartialEq, Eq, Structural)]
pub enum ErrorKind {
    /// The source path names no existing file.
    NotFound,
    /// The size of the source could not be read.
    MetadataUnavailable,
    /// The source bytes are no image of a supported format.
    DecodeFailed,
    /// The codec could not write the reduced image.
    EncodeFailed,
    /// Another read or write failed.
    IoFailed,
}

/// A failed normalisation: the kind, the path involved and the text of the
/// underlying cause, where there is one.
#[derive(Debug)]
pub struct NormalizeError {
    pub kind: ErrorKind,
    pub path: String,
    pub cause: String,
}

/// What the caller found at the source path.
#[derive(Debug)]
pub struct SourceFile {
    /// The path as the caller gave it.
    pub path: String,
    /// Whether a file exists there.
    pub exists: bool,
    /// Its length in bytes, where the metadata could be read.
    pub byte_size: Option<u64>,
    /// Its bytes, where the file could be read.
    pub contents: Option<Vec<u8>>,
}

/// The options of the pipeline.
#[derive(Debug)]
pub struct NormalizerConfig {
    /// Upper bound on the longer output side, in pixels.
    pub max_dimension: u32,
    /// Quality factor of the lossy codec, 0 to 100.
    pub quality: u8,
    /// The codec of the artifact.
    pub codec: Codec,
    /// The directory under which artifacts are written.
    pub storage_root: String,
}

/// The report of one normalisation.
#[derive(Debug)]
pub struct CompressResult {
    pub success: bool,
    pub id: String,
    pub original_path: String,
    pub output_path: String,
    pub original_size: u64,
    pub compressed_size: u64,
    /// Width after resizing.
    pub width: u32,
    /// Height after resizing.
    pub height: u32,
    /// Content hash of the artifact's bytes.
    pub md5: String,
}

/// A finished artifact: its report and the bytes to persist at
/// `report.output_path`.
#[derive(Debug)]
pub struct Artifact {
    pub report: CompressResult,
    pub bytes: Vec<u8>,
}

/// The artifact's path: the file `artifact_id.extension` directly under the
/// storage root, or the bare file name where the root is empty.
pub open spec fn artifact_path_spec(root: Seq<char>, artifact_id: Seq<char>, codec: Codec) -> Seq<
    char,
> {
    let name = artifact_id + seq!['.'] + codec.extension_spec();
    if root.len() == 0 {
        name
    } else {
        root + seq!['/'] + name
    }
}

/// The first failure that the source itself causes, in the order in which
/// the pipeline looks: existence, size, contents, decoding.
pub open spec fn source_failure(source: &SourceFile) -> Option<ErrorKind> {
    if !source.exists {
        Some(ErrorKind::NotFound)
    } else if source.byte_size is None {
        Some(ErrorKind::MetadataUnavailable)
    } else if source.contents is None {
        Some(ErrorKind::IoFailed)
    } else if decoded_image(source.contents.unwrap()@) is None {
        Some(ErrorKind::DecodeFailed)
    } else {
        None
    }
}

/// The output dimensions of a source that decodes.
pub open spec fn output_size(source: &SourceFile, max_dimension: u32) -> (int, int) {
    let decoded = decoded_image(source.contents.unwrap()@).unwrap();
    target_size(decoded.0 as int, decoded.1 as int, max_dimension as int)
}

/// Whether an image of these dimensions is within the maximum dimension, so
/// that the pipeline leaves its geometry alone.
pub open spec fn within_maximum(width: u32, height: u32, max_dimension: u32) -> bool {
    long_side(width as int, height as int) <= max_dimension
}

/// The artifact of an image that needs no resampling: its luminance in the
/// configured codec.
pub open spec fn unscaled_artifact(
    width: u32,
    height: u32,
    rgba: Seq<u8>,
    config: &NormalizerConfig,
) -> Seq<u8> {
    encoded_bytes(
        config.codec,
        width,
        height,
        luminance_samples(width, height, rgba),
        config.quality,
    )
}

/// `bytes` is the artifact of some image of the given dimensions: whatever
/// the resampling made of the pixels, the bytes are its luminance in the
/// configured codec.
pub open spec fn artifact_of_size(
    bytes: Seq<u8>,
    width: u32,
    height: u32,
    config: &NormalizerConfig,
) -> bool {
    exists|rgba: Seq<u8>|
        rgba.len() == width as int * height as int * RGBA_CHANNELS as int
            && bytes == #[trigger] unscaled_artifact(width, height, rgba, config)
}

/// What `normalize` may return for a source, an identifier and a
/// configuration.
pub open spec fn normalized(
    source: &SourceFile,
    artifact_id: Seq<char>,
    config: &NormalizerConfig,
    r: Result<Artifact, NormalizeError>,
) -> bool {
    match source_failure(source) {
        Some(kind) => {
            &&& r matches Err(e) && e.kind == kind && e.path@ == source.path@ && (kind
                != ErrorKind::DecodeFailed ==> e.cause@.len() == 0)
        },
        None => {
            let decoded = decoded_image(source.contents.unwrap()@).unwrap();
            let size = output_size(source, config.max_dimension);
            &&& r is Ok <==> config.codec.can_encode(size.0 as u32, size.1 as u32)
            &&& match r {
                Ok(artifact) => {
                    &&& describes(&artifact.report, source, artifact_id, config, artifact.bytes@)
                    &&& artifact_of_size(
                        artifact.bytes@,
                        artifact.report.width,
                        artifact.report.height,
                        config,
                    )
                    &&& within_maximum(decoded.0, decoded.1, config.max_dimension)
                        ==> artifact.bytes@ == unscaled_artifact(
                        decoded.0,
                        decoded.1,
                        decoded.2,
                        config,
                    )
                },
                Err(e) => e.kind == ErrorKind::EncodeFailed && e.path@ == artifact_path_spec(
                    config.storage_root@,
                    artifact_id,
                    config.codec,
                ),
            }
        },
    }
}

/// `report` is the report of the artifact `bytes` made from `source` under
/// `artifact_id` and `config`.
pub open spec fn describes(
    report: &CompressResult,
    source: &SourceFile,
    artifact_id: Seq<char>,
    config: &NormalizerConfig,
    bytes: Seq<u8>,
) -> bool {
    &&& report.success
    &&& report.id@ == artifact_id
    &&& report.original_path@ == source.path@
    &&& report.output_path@ == artifact_path_spec(config.storage_root@, artifact_id, config.codec)
    &&& report.original_size == source.byte_size.unwrap()
    &&& report.compressed_size == bytes.len()
    &&& (report.width as int, report.height as int) == output_size(source, config.max_dimension)
    &&& report.md5@ == hash_hex(bytes)
}

impl ErrorKind {
    /// The stage that failed, in words.
    pub open spec fn label_spec(self) -> Seq<char> {
        match self {
            ErrorKind::NotFound => "File not found"@,
            ErrorKind::MetadataUnavailable => "Failed to read metadata"@,
            ErrorKind::DecodeFailed => "Failed to open image"@,
            ErrorKind::EncodeFailed => "Failed to encode image"@,
            ErrorKind::IoFailed => "Failed to access file"@,
        }
    }

    /// The stage that failed, in words.
    pub fn label(self) -> (r: &'static str)
        ensures
            r@ == self.label_spec(),
    {
        match self {
            ErrorKind::NotFound => "File not found",
            ErrorKind::MetadataUnavailable => "Failed to read metadata",
            ErrorKind::DecodeFailed => "Failed to open image",
            ErrorKind::EncodeFailed => "Failed to encode image",
            ErrorKind::IoFailed => "Failed to access file",
        }
    }
}

impl NormalizeError {
    /// The message of the error: the stage, the path, and the cause where
    /// one is known.
    pub open spec fn message_spec(&self) -> Seq<char> {
        let head = self.kind.label_spec() + ": "@ + self.path@;
        if self.cause@.len() == 0 {
            head
        } else {
            head + ": "@ + self.cause@
        }
    }

    /// The message of the error, for a caller to log or show.
    pub fn message(&self) -> (r: String)
        ensures
            r@ == self.message_spec(),
    {
        let mut out = String::from_str(self.kind.label());
        out.append(": ");
        out.append(self.path.as_str());
        if !self.cause.as_str().is_empty() {
            out.append(": ");
            out.append(self.cause.as_str());
        }
        out
    }
}

impl NormalizerConfig {
    /// A configuration with the default geometry and codec: longer side at
    /// most 1536 pixels, JPEG at quality 75.
    pub fn new(storage_root: String) -> (r: Self)
        ensures
            r.max_dimension == DEFAULT_MAX_DIMENSION,
            r.quality == DEFAULT_QUALITY,
            r.codec == Codec::Jpeg,
            r.storage_root@ == storage_root@,
    {
        NormalizerConfig {
            max_dimension: DEFAULT_MAX_DIMENSION,
            quality: DEFAULT_QUALITY,
            codec: Codec::Jpeg,
            storage_root,
        }
    }
}

impl SourceFile {
    /// A source path at which no file exists.
    pub fn missing(path: String) -> (r: Self)
        ensures
            r.path@ == path@,
            !r.exists,
            r.byte_size is None,
            r.contents is None,
    {
        SourceFile { path, exists: false, byte_size: None, contents: None }
    }

    /// A source file that was read in full.
    pub fn loaded(path: String, contents: Vec<u8>) -> (r: Self)
        ensures
            r.path@ == path@,
            r.exists,
            r.byte_size == Some(contents@.len() as u64),
            r.contents == Some(contents),
    {
        let size = contents.len() as u64;
        SourceFile { path, exists: true, byte_size: Some(size), contents: Some(contents) }
    }
}

/// Builds the path of the artifact for `artifact_id` under `storage_root`.
pub fn artifact_path(storage_root: &str, artifact_id: &str, codec: Codec) -> (r: String)
    ensures
        r@ == artifact_path_spec(storage_root@, artifact_id@, codec),
{
    proof {
        reveal_strlit("/");
        reveal_strlit(".");
    }
    let mut out = String::from_str(storage_root);
    if !storage_root.is_empty() {
        out.append("/");
        assert("/"@ =~= seq!['/']);
    }
    out.append(artifact_id);
    out.append(".");
    assert("."@ =~= seq!['.']);
    out.append(codec.extension());
    assert(out@ =~= artifact_path_spec(storage_root@, artifact_id@, codec));
    out
}

/// Resizes a decoded image to its target geometry, reduces it to luminance
/// in three channels and encodes it. An image already within the maximum
/// dimension is not resampled.
pub fn render(decoded: Raster, config: &NormalizerConfig) -> (r: Result<
    (u32, u32, Vec<u8>),
    image::ImageError,
>)
    requires
        decoded.wf(),
        decoded.channels == RGBA_CHANNELS,
    ensures
        ({
            let t = target_size(
                decoded.width as int,
                decoded.height as int,
                config.max_dimension as int,
            );
            &&& r is Ok <==> config.codec.can_encode(t.0 as u32, t.1 as u32)
            &&& r matches Ok(out) ==> (out.0 as int, out.1 as int) == t
            &&& r matches Ok(out) ==> artifact_of_size(out.2@, out.0, out.1, config)
            &&& r matches Ok(out) ==> (within_maximum(
                decoded.width,
                decoded.height,
                config.max_dimension,
            ) ==> out.2@ == unscaled_artifact(
                decoded.width,
                decoded.height,
                decoded.samples@,
                config,
            ))
        }),
{
    let (width, height) = target_dimensions(decoded.width, decoded.height, config.max_dimension);
    let sized = if width != decoded.width || height != decoded.height {
        resample_lanczos(&decoded, width, height)
    } else {
        decoded
    };
    let reduced = luminance_rgb(&sized);
    assert(unscaled_artifact(sized.width, sized.height, sized.samples@, config) == encoded_bytes(
        config.codec,
        reduced.width,
        reduced.height,
        reduced.samples@,
        config.quality,
    ));
    match encode(&reduced, config.codec, config.quality) {
        Ok(bytes) => Ok((reduced.width, reduced.height, bytes)),
        Err(e) => Err(e),
    }
}

/// Assembles the report of an encoded artifact and hashes its bytes.
pub fn assemble(
    source: &SourceFile,
    artifact_id: &str,
    config: &NormalizerConfig,
    width: u32,
    height: u32,
    bytes: Vec<u8>,
) -> (r: Artifact)
    requires
        source.byte_size is Some,
    ensures
        r.bytes@ == bytes@,
        r.report.success,
        r.report.id@ == artifact_id@,
        r.report.original_path@ == source.path@,
        r.report.output_path@ == artifact_path_spec(
            config.storage_root@,
            artifact_id@,
            config.codec,
        ),
        r.report.original_size == source.byte_size.unwrap(),
        r.report.compressed_size == bytes@.len(),
        r.report.width == width,
        r.report.height == height,
        r.report.md5@ == hash_hex(bytes@),
{
    let original_size = match source.byte_size {
        Some(n) => n,
        None => 0,
    };
    let report = CompressResult {
        success: true,
        id: String::from_str(artifact_id),
        original_path: source.path.clone(),
        output_path: artifact_path(config.storage_root.as_str(), artifact_id, config.codec),
        original_size,
        compressed_size: bytes.len() as u64,
        width,
        height,
        md5: content_hash(bytes.as_slice()),
    };
    Artifact { report, bytes }
}

fn failure(kind: ErrorKind, path: String, cause: String) -> (r: NormalizeError)
    ensures
        r.kind == kind,
        r.path@ == path@,
        r.cause@ == cause@,
{
    NormalizeError { kind, path, cause }
}

/// Normalises one source file into an artifact.
///
/// Fails with the first of these that applies: `NotFound` where no file
/// exists, `MetadataUnavailable` where its size is unknown, `IoFailed` where
/// its bytes could not be read, `DecodeFailed` where the bytes are no
/// supported image, `EncodeFailed` where the codec cannot write an image of
/// the target dimensions. Otherwise returns the artifact's bytes and its
/// report.
pub fn normalize(source: &SourceFile, artifact_id: &str, config: &NormalizerConfig) -> (r: Result<
    Artifact,
    NormalizeError,
>)
    ensures
        normalized(source, artifact_id@, config, r),
{
    if !source.exists {
        return Err(failure(ErrorKind::NotFound, source.path.clone(), String::new()));
    }
    if source.byte_size.is_none() {
        return Err(failure(ErrorKind::MetadataUnavailable, source.path.clone(), String::new()));
    }
    let data = match &source.contents {
        Some(data) => data,
        None => {
            return Err(failure(ErrorKind::IoFailed, source.path.clone(), String::new()));
        },
    };
    let decoded = match decode_rgba(data.as_slice()) {
        Ok(img) => img,
        Err(e) => {
            return Err(failure(ErrorKind::DecodeFailed, source.path.clone(), cause_text(&e)));
        },
    };
    match render(decoded, config) {
        Ok((width, height, bytes)) => Ok(
            assemble(source, artifact_id, config, width, height, bytes),
        ),
        Err(e) => Err(
            failure(
                ErrorKind::EncodeFailed,
                artifact_path(config.storage_root.as_str(), artifact_id, config.codec),
                cause_text(&e),
            ),
        ),
    }
}

/// The longer side of a reported image never exceeds the configured
/// maximum, and neither side exceeds that of the decoded source.
pub proof fn lemma_report_within_maximum(
    report: &CompressResult,
    source: &SourceFile,
    artifact_id: Seq<char>,
    config: &NormalizerConfig,
    bytes: Seq<u8>,
)
    requires
        describes(report, source, artifact_id, config, bytes),
    ensures
        long_side(report.width as int, report.height as int) <= config.max_dimension,
        report.width <= decoded_image(source.contents.unwrap()@).unwrap().0,
        report.height <= decoded_image(source.contents.unwrap()@).unwrap().1,
{
    let decoded = decoded_image(source.contents.unwrap()@).unwrap();
    lemma_target_bounded(decoded.0 as int, decoded.1 as int, config.max_dimension as int);
}

/// Two reports of the same bytes carry the same content hash, whatever
/// their identifiers, sources and configurations.
pub proof fn lemma_hash_ignores_identity(
    first: &CompressResult,
    first_source: &SourceFile,
    first_id: Seq<char>,
    first_config: &NormalizerConfig,
    second: &CompressResult,
    second_source: &SourceFile,
    second_id: Seq<char>,
    second_config: &NormalizerConfig,
    bytes: Seq<u8>,
)
    requires
        describes(first, first_source, first_id, first_config, bytes),
        describes(second, second_source, second_id, second_config, bytes),
    ensures
        first.md5@ == second.md5@,
{
}

/// Normalising one source twice under one configuration gives the same
/// bytes, the same content hash and the same dimensions both times, where
/// the image is within the maximum dimension.
pub proof fn lemma_normalize_repeatable(
    source: &SourceFile,
    artifact_id: Seq<char>,
    config: &NormalizerConfig,
    first: Artifact,
    second: Artifact,
)
    requires
        normalized(source, artifact_id, config, Ok(first)),
        normalized(source, artifact_id, config, Ok(second)),
        within_maximum(
            decoded_image(source.contents.unwrap()@).unwrap().0,
            decoded_image(source.contents.unwrap()@).unwrap().1,
            config.max_dimension,
        ),
    ensures
        first.bytes@ == second.bytes@,
        first.report.md5@ == second.report.md5@,
        first.report.width == second.report.width,
        first.report.height == second.report.height,
        first.report.compressed_size == second.report.compressed_size,
{
}

/// Two sources that decode to the same pixels get the same content hash
/// under configurations with the same maximum dimension, codec and quality,
/// where the image is within the maximum dimension.
pub proof fn lemma_identical_pixels_identical_hash(
    first_source: &SourceFile,
    first_id: Seq<char>,
    first_config: &NormalizerConfig,
    first: Artifact,
    second_source: &SourceFile,
    second_id: Seq<char>,
    second_config: &NormalizerConfig,
    second: Artifact,
)
    requires
        normalized(first_source, first_id, first_config, Ok(first)),
        normalized(second_source, second_id, second_config, Ok(second)),
        first_source.contents is Some,
        second_source.contents is Some,
        decoded_image(first_source.contents.unwrap()@) == decoded_image(
            second_source.contents.unwrap()@,
        ),
        first_config.max_dimension == second_config.max_dimension,
        first_config.codec == second_config.codec,
        first_config.quality == second_config.quality,
        within_maximum(
            decoded_image(first_source.contents.unwrap()@).unwrap().0,
            decoded_image(first_source.contents.unwrap()@).unwrap().1,
            first_config.max_dimension,
        ),
    ensures
        first.bytes@ == second.bytes@,
        first.report.md5@ == second.report.md5@,
{
}

} // verus!
