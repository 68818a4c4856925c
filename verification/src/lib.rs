//! An ownership-checked wrapper model for a native image-processing library.
//!
//! The native library hands out opaque image handles and reports failures
//! through an out-of-band exception struct. This crate holds the verified
//! core of a safe wrapper around that convention: the single-owner handle
//! model, the translation of captured exceptions into typed errors, the
//! bounded fixed-capacity text buffers the native structs carry, and the
//! exact arithmetic of aspect-preserving scaling. The native calls
//! themselves are performed by the embedding program, which hands each
//! call's outcome back to the functions here; every decision taken on such
//! an outcome is verified.

pub mod err;
pub mod image;
pub mod scaling;
pub mod text;
pub mod variants;

pub use err::Error;
pub use err::ExceptionInfo;
pub use image::BlobOutcome;
pub use image::Image;
pub use image::ImageInfo;
pub use image::RegisterOutcome;
pub use image::ReshapeOutcome;
pub use image::TransformOutcome;
pub use image::WriteOutcome;
pub use variants::CacheLookup;
pub use variants::ConstituteOutcome;
pub use variants::ImageLike;
pub use variants::ImageWithContainer;
pub use variants::ImageWithInfo;
pub use variants::ReadEvent;
pub use variants::ReadOutcome;
pub use variants::StorageKind;
pub use variants::StorageType;
