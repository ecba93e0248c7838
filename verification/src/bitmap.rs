//! Serialization of the bitmap byte stream.
//!
//! A materialized thumbnail is written as a standalone bitmap file: a
//! 14-byte file header, a 40-byte info header, then the 32-bit-per-pixel
//! payload in top-down row order. Every multi-byte field is packed
//! little-endian, field by field, independent of the host's struct
//! layout. The spec functions below give the exact byte sequence; the
//! executable serializer is proved to produce it.

use vstd::prelude::*;
use vstd::bytes::*;

verus! {

/// Magnitude of a pixel dimension, as a mathematical integer.
pub open spec fn abs_dim(v: i32) -> int {
    if v < 0 {
        -(v as int)
    } else {
        v as int
    }
}

/// Length of the 32-bit-per-pixel payload for an image of the given
/// dimensions: four bytes for each of the `|width| * |height|` pixels.
pub open spec fn raw_len(width: i32, height: i32) -> int {
    4 * abs_dim(width) * abs_dim(height)
}

/// The value written to the info header's width field: the magnitude of
/// the queried width.
pub open spec fn width_field(width: i32) -> u32 {
    abs_dim(width) as u32
}

/// The value written to the info header's height field: the two's
/// complement encoding of the *negative* of the absolute height, which
/// marks the pixel rows as stored top-down.
pub open spec fn height_field(height: i32) -> u32 {
    if abs_dim(height) == 0 {
        0u32
    } else {
        (0x100000000int - abs_dim(height)) as u32
    }
}

/// The signed value that a 32-bit little-endian field holds.
pub open spec fn as_signed(v: u32) -> int {
    if v < 0x80000000 {
        v as int
    } else {
        v - 0x100000000
    }
}

/// The 14-byte file header: magic "BM", total file size, a reserved
/// zero word, and the offset of the pixel data.
pub open spec fn file_header_seq(file_size: u32) -> Seq<u8> {
    seq![0x42u8, 0x4du8] + spec_u32_to_le_bytes(file_size) + spec_u32_to_le_bytes(0u32)
        + spec_u32_to_le_bytes(54u32)
}

/// The 40-byte info header: its own size, the pixel dimensions (height
/// negated for top-down order), one plane, 32 bits per pixel, no
/// compression, and five zero fields (image size, two resolutions,
/// palette counts).
pub open spec fn info_header_seq(width: i32, height: i32) -> Seq<u8> {
    spec_u32_to_le_bytes(40u32) + spec_u32_to_le_bytes(width_field(width)) + spec_u32_to_le_bytes(
        height_field(height),
    ) + spec_u16_to_le_bytes(1u16) + spec_u16_to_le_bytes(32u16) + spec_u32_to_le_bytes(0u32)
        + spec_u32_to_le_bytes(0u32) + spec_u32_to_le_bytes(0u32) + spec_u32_to_le_bytes(0u32)
        + spec_u32_to_le_bytes(0u32) + spec_u32_to_le_bytes(0u32)
}

/// The whole serialized bitmap: both headers, then the pixel payload.
pub open spec fn serialized_bitmap_seq(width: i32, height: i32, pixels: Seq<u8>) -> Seq<u8>
    recommends
        54 + pixels.len() <= u32::MAX,
{
    file_header_seq((54 + pixels.len()) as u32) + info_header_seq(width, height) + pixels
}

/// Magnitude of a pixel dimension.
pub fn abs_u32(v: i32) -> (r: u32)
    ensures
        r == abs_dim(v),
{
    if v >= 0 {
        v as u32
    } else {
        let wide: i64 = v as i64;
        (-wide) as u32
    }
}

/// Appends the little-endian bytes of `v` to `out`.
fn push_u32_le(out: &mut Vec<u8>, v: u32)
    ensures
        final(out)@ == old(out)@ + spec_u32_to_le_bytes(v),
{
    let mut b = u32_to_le_bytes(v);
    out.append(&mut b);
}

/// Appends the little-endian bytes of `v` to `out`.
fn push_u16_le(out: &mut Vec<u8>, v: u16)
    ensures
        final(out)@ == old(out)@ + spec_u16_to_le_bytes(v),
{
    let mut b = u16_to_le_bytes(v);
    out.append(&mut b);
}

/// Serializes the two headers and the pixel payload into one byte
/// stream, exactly as [`serialized_bitmap_seq`] states it.
pub fn serialize_bmp(width: i32, height: i32, pixels: Vec<u8>) -> (r: Vec<u8>)
    requires
        pixels@.len() == raw_len(width, height),
        54 + raw_len(width, height) <= u32::MAX,
    ensures
        r@ == serialized_bitmap_seq(width, height, pixels@),
        r@.len() == 54 + pixels@.len(),
{
    proof {
        lemma_auto_spec_u32_to_from_le_bytes();
        lemma_auto_spec_u16_to_from_le_bytes();
    }
    let mut payload = pixels;
    let file_size: u32 = (payload.len() as u32) + 54;
    let height_abs: u32 = abs_u32(height);
    let height_value: u32 = if height_abs == 0 {
        0
    } else {
        (0xffffffffu32 - height_abs) + 1
    };
    let mut out: Vec<u8> = Vec::new();
    out.push(0x42);
    out.push(0x4d);
    push_u32_le(&mut out, file_size);
    push_u32_le(&mut out, 0);
    push_u32_le(&mut out, 54);
    push_u32_le(&mut out, 40);
    push_u32_le(&mut out, abs_u32(width));
    push_u32_le(&mut out, height_value);
    push_u16_le(&mut out, 1);
    push_u16_le(&mut out, 32);
    push_u32_le(&mut out, 0);
    push_u32_le(&mut out, 0);
    push_u32_le(&mut out, 0);
    push_u32_le(&mut out, 0);
    push_u32_le(&mut out, 0);
    push_u32_le(&mut out, 0);
    out.append(&mut payload);
    proof {
        assert(out@ =~= serialized_bitmap_seq(width, height, pixels@));
        assert(file_header_seq((54 + pixels@.len()) as u32).len() == 14);
        assert(info_header_seq(width, height).len() == 40);
    }
    out
}

/// Law: the serialized stream is exactly the two fixed headers followed
/// by the payload, so its total length is 54 bytes more than the
/// payload's, and the file-size field holds that total length.
pub proof fn lemma_stream_length(width: i32, height: i32, pixels: Seq<u8>)
    requires
        54 + pixels.len() <= u32::MAX,
    ensures
        serialized_bitmap_seq(width, height, pixels).len() == 54 + pixels.len(),
        serialized_bitmap_seq(width, height, pixels).subrange(2, 6) == spec_u32_to_le_bytes(
            (54 + pixels.len()) as u32,
        ),
{
    lemma_auto_spec_u32_to_from_le_bytes();
    lemma_auto_spec_u16_to_from_le_bytes();
    let s = serialized_bitmap_seq(width, height, pixels);
    assert(s.subrange(2, 6) =~= spec_u32_to_le_bytes((54 + pixels.len()) as u32));
}

/// Law: the pixel-data offset field always holds the combined size of
/// the two fixed headers, whatever the image dimensions and payload.
pub proof fn lemma_pixel_offset_field(width: i32, height: i32, pixels: Seq<u8>)
    ensures
        serialized_bitmap_seq(width, height, pixels).subrange(10, 14) == spec_u32_to_le_bytes(
            54u32,
        ),
{
    lemma_auto_spec_u32_to_from_le_bytes();
    lemma_auto_spec_u16_to_from_le_bytes();
    let s = serialized_bitmap_seq(width, height, pixels);
    assert(s.subrange(10, 14) =~= spec_u32_to_le_bytes(54u32));
}

/// Law: the height field always encodes the negative of the absolute
/// pixel height, marking top-down row order, whatever sign the queried
/// height carried.
pub proof fn lemma_height_field(width: i32, height: i32, pixels: Seq<u8>)
    ensures
        serialized_bitmap_seq(width, height, pixels).subrange(22, 26) == spec_u32_to_le_bytes(
            height_field(height),
        ),
        as_signed(height_field(height)) == -abs_dim(height),
        as_signed(height_field(height)) <= 0,
{
    lemma_auto_spec_u32_to_from_le_bytes();
    lemma_auto_spec_u16_to_from_le_bytes();
    let s = serialized_bitmap_seq(width, height, pixels);
    assert(s.subrange(22, 26) =~= spec_u32_to_le_bytes(height_field(height)));
}

/// Law: the width field holds the absolute queried width.
pub proof fn lemma_width_field(width: i32, height: i32, pixels: Seq<u8>)
    ensures
        serialized_bitmap_seq(width, height, pixels).subrange(18, 22) == spec_u32_to_le_bytes(
            width_field(width),
        ),
        width_field(width) == abs_dim(width),
{
    lemma_auto_spec_u32_to_from_le_bytes();
    lemma_auto_spec_u16_to_from_le_bytes();
    let s = serialized_bitmap_seq(width, height, pixels);
    assert(s.subrange(18, 22) =~= spec_u32_to_le_bytes(width_field(width)));
}

/// Law: the format fields are fixed for every serialized thumbnail:
/// the stream opens with the magic bytes "BM", declares one plane,
/// 32 bits per pixel, and no compression.
pub proof fn lemma_fixed_format_fields(width: i32, height: i32, pixels: Seq<u8>)
    ensures
        serialized_bitmap_seq(width, height, pixels)[0] == 0x42u8,
        serialized_bitmap_seq(width, height, pixels)[1] == 0x4du8,
        serialized_bitmap_seq(width, height, pixels).subrange(26, 28) == spec_u16_to_le_bytes(
            1u16,
        ),
        serialized_bitmap_seq(width, height, pixels).subrange(28, 30) == spec_u16_to_le_bytes(
            32u16,
        ),
        serialized_bitmap_seq(width, height, pixels).subrange(30, 34) == spec_u32_to_le_bytes(
            0u32,
        ),
        serialized_bitmap_seq(width, height, pixels).subrange(54, 54 + pixels.len() as int)
            == pixels,
{
    lemma_auto_spec_u32_to_from_le_bytes();
    lemma_auto_spec_u16_to_from_le_bytes();
    let s = serialized_bitmap_seq(width, height, pixels);
    assert(s.subrange(26, 28) =~= spec_u16_to_le_bytes(1u16));
    assert(s.subrange(28, 30) =~= spec_u16_to_le_bytes(32u16));
    assert(s.subrange(30, 34) =~= spec_u32_to_le_bytes(0u32));
    assert(s.subrange(54, 54 + pixels.len() as int) =~= pixels);
}

/// Turns the copied pixel payload into the caller's result: the
/// serialized bitmap when headers are requested, the raw buffer alone
/// otherwise.
pub fn materialize_bytes(width: i32, height: i32, pixels: Vec<u8>, embed_headers: bool) -> (r:
    Vec<u8>)
    requires
        pixels@.len() == raw_len(width, height),
        54 + raw_len(width, height) <= u32::MAX,
    ensures
        embed_headers ==> r@ == serialized_bitmap_seq(width, height, pixels@) && r@.len() == 54
            + pixels@.len(),
        !embed_headers ==> r@ == pixels@,
{
    if embed_headers {
        serialize_bmp(width, height, pixels)
    } else {
        pixels
    }
}

} // verus!
