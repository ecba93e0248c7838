//! Optional re-encoding of a serialized bitmap.
//!
//! The adapter decodes the materialized byte stream as a standard
//! image file — making no use of the serializer's own layout — and
//! hands the picture to the JPEG codec at a caller-chosen quality.
//! The codec library's work is reached through one trusted wrapper;
//! its result is named by the spec functions below, so the contract of
//! [`reencode`] owes the encoded image whenever the codec can decode
//! and re-encode the stream, and names which error comes otherwise.
//!
//! The wrapper decodes along the codec library's hook-free path: the
//! format is guessed from a fixed magic-byte table and the decoder is
//! chosen from the built-in set, never from the library's runtime
//! registries of format and decoder hooks, which any host process may
//! change at any time. Only so is the decode result a function of the
//! bytes alone, which the names below claim.

use vstd::prelude::*;
use crate::error::ThumbError;

verus! {

/// Whether the codec library decodes the byte stream as a well-formed
/// image. The format is guessed from the bytes' magic numbers and the
/// built-in decoder runs on the bytes, so this is a function of the
/// bytes alone.
pub uninterp spec fn image_parses(bytes: Seq<u8>) -> bool;

/// Whether the picture decoded from the byte stream can be JPEG
/// encoded: the codec rejects pictures with a dimension outside the
/// format's sixteen-bit field. A function of the bytes alone.
pub uninterp spec fn jpeg_encodes(bytes: Seq<u8>) -> bool;

/// The JPEG encoding, at the given quality, of the picture decoded
/// from the byte stream. Decoding, the conversion to
/// eight-bit red-green-blue, and the encoder's fixed tables depend on
/// the bytes and the quality alone.
pub uninterp spec fn jpeg_of(bytes: Seq<u8>, quality: u8) -> Seq<u8>;

/// Relies on image::guess_format (a fixed magic-byte table),
/// image::load_from_memory_with_format (built-in decoders only, no
/// runtime hooks), DynamicImage::to_rgb8, and
/// image::codecs::jpeg::JpegEncoder — new_with_quality clamps the
/// quality into 1..=100, write_with_encoder writes the JPEG or reports
/// a picture it cannot encode. Every failure is an error value, never
/// a panic.
#[verifier::external_body]
fn reencode_bytes(bytes: &[u8], quality: u8) -> (r: Result<Vec<u8>, ThumbError>)
    ensures
        r is Ok <==> (image_parses(bytes@) && jpeg_encodes(bytes@)),
        r matches Ok(v) ==> v@ == jpeg_of(bytes@, quality),
        (r matches Err(ThumbError::Decode(_))) <==> !image_parses(bytes@),
        (r matches Err(ThumbError::Encode(_))) <==> (image_parses(bytes@) && !jpeg_encodes(
            bytes@,
        )),
{
    let format = image::guess_format(bytes).map_err(|e| ThumbError::Decode(e.to_string()))?;
    let img = image::load_from_memory_with_format(bytes, format)
        .map_err(|e| ThumbError::Decode(e.to_string()))?;
    let mut buf: Vec<u8> = Vec::new();
    let encoder = image::codecs::jpeg::JpegEncoder::new_with_quality(&mut buf, quality);
    match image::DynamicImage::ImageRgb8(img.to_rgb8()).write_with_encoder(encoder) {
        Ok(()) => Ok(buf),
        Err(e) => Err(ThumbError::Encode(e.to_string())),
    }
}

/// Re-encodes a serialized bitmap as a JPEG at the given quality.
///
/// A byte stream the codec cannot decode yields the decode error, and
/// only such a stream does. A stream that decodes to a picture the
/// JPEG format cannot hold yields the encode error; every other
/// decodable stream yields exactly its JPEG encoding at this quality.
pub fn reencode(bitmap: &Vec<u8>, quality: u8) -> (r: Result<Vec<u8>, ThumbError>)
    requires
        quality <= 100,
    ensures
        r is Ok <==> (image_parses(bitmap@) && jpeg_encodes(bitmap@)),
        r matches Ok(v) ==> v@ == jpeg_of(bitmap@, quality),
        (r matches Err(ThumbError::Decode(_))) <==> !image_parses(bitmap@),
        (r matches Err(ThumbError::Encode(_))) <==> (image_parses(bitmap@) && !jpeg_encodes(
            bitmap@,
        )),
{
    reencode_bytes(bitmap.as_slice(), quality)
}

} // verus!
