//! The error taxonomy of the thumbnail pipeline.
//!
//! Every error is terminal for the request that raised it; nothing is
//! retried. Each variant carries the underlying platform status code
//! where one exists, or the codec's message, so a failure can be
//! diagnosed without re-running.

use vstd::prelude::*;

verus! {

/// Why a thumbnail request failed.
#[derive(Debug)]
pub enum ThumbError {
    /// The file path could not be parsed, or did not resolve to an
    /// accessible shell item.
    PathResolution(i32),
    /// The resolved item does not support image extraction.
    Capability(i32),
    /// The shell could not produce a thumbnail for the item.
    Acquisition(i32),
    /// The image handle's pixel geometry could not be queried, or
    /// describes a pixel buffer too large for the serialized layout.
    GeometryQuery(i32),
    /// The device-context copy transferred zero rows.
    PixelTransfer(i32),
    /// The byte stream handed to the re-encoder is not a well-formed
    /// image; carries the decoder's message.
    Decode(String),
    /// The codec failed to re-encode the image; carries its message.
    Encode(String),
}

impl ThumbError {
    /// True of the errors raised before any image handle exists: path
    /// resolution, the capability query, and the acquisition itself.
    pub open spec fn is_pre_acquisition(&self) -> bool {
        self is PathResolution || self is Capability || self is Acquisition
    }
}

} // verus!
