//! Verified core of a shell-thumbnail extractor.
//!
//! The library turns a thumbnail handed back by the host's shell service
//! into a self-contained bitmap byte stream: it sizes the pixel buffer,
//! packs the two fixed bitmap headers byte by byte, and sequences the
//! platform calls so that every acquired resource is released exactly
//! once on every path. An optional adapter re-encodes the serialized
//! bitmap as a JPEG at a chosen quality.
//!
//! The platform calls themselves (shell item resolution, image
//! acquisition, the device-context pixel copy) are performed by an
//! unverified driver that obeys the [`session`] protocol.

pub mod bitmap;
pub mod com;
pub mod error;
pub mod reencode;
pub mod session;
pub mod size;

pub use com::ComLibrary;
pub use error::ThumbError;
pub use reencode::reencode;
pub use session::Action;
pub use session::BitmapGeometry;
pub use session::Phase;
pub use session::ThumbSession;
pub use size::Extent;
pub use size::ThumbSize;
