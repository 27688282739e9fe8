//! Safe, verified adaptation layer for a callback-driven JPEG XR image
//! decoder.
//!
//! The decoder core itself (entropy coding, prediction, transforms) is an
//! external collaborator reached through opaque handles and signed status
//! codes; this crate models that collaborator and verifies everything the
//! adaptation layer owns: the translation of status codes into a structured
//! error taxonomy, the bidirectional registry between 128-bit format
//! identifiers and a closed pixel-format enumeration, the pull/seek stream
//! adapter that the decoder drives through fixed-shape callbacks, and the
//! lifecycle of a decoder handle around one stream adapter.

use vstd::prelude::*;

pub mod decode;
pub mod error;
pub mod format;
pub mod info;
pub mod rect;
pub mod stream;

pub use decode::ImageDecode;
pub use error::call;
pub use error::JXRError;
pub use format::FormatId;
pub use format::PixelFormat;
pub use info::BitDepthBits;
pub use info::ColorFormat;
pub use info::PhotometricInterpretation;
pub use info::PixelInfo;
pub use rect::Rect;
pub use stream::ByteSource;
pub use stream::InputStream;

verus! {

} // verus!
