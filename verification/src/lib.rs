//! Image normalisation for text recognition: bounded geometry, luminance
//! reduction, lossy re-encoding and a content hash for duplicate detection.
//!
//! The crate performs no file access. A caller reads the source file, hands
//! what it found to [`normalizer::normalize`], and persists the bytes of the
//! artifact that comes back.

pub mod codec;
pub mod digest;
pub mod geometry;
pub mod normalizer;
pub mod raster;
