//! Byte-level checks of the serialized bitmap layout.

use thumbcache::bitmap::materialize_bytes;
use thumbcache::bitmap::serialize_bmp;

fn le32(bytes: &[u8], offset: usize) -> u32 {
    u32::from_le_bytes([bytes[offset], bytes[offset + 1], bytes[offset + 2], bytes[offset + 3]])
}

fn le32s(bytes: &[u8], offset: usize) -> i32 {
    le32(bytes, offset) as i32
}

fn le16(bytes: &[u8], offset: usize) -> u16 {
    u16::from_le_bytes([bytes[offset], bytes[offset + 1]])
}

fn sample_pixels(width: usize, height: usize) -> Vec<u8> {
    let mut pixels = Vec::new();
    for y in 0..height {
        for x in 0..width {
            pixels.push((x * 7 + y * 13) as u8); // blue
            pixels.push((x * 31 ^ y * 5) as u8); // green
            pixels.push((x + y * 3) as u8); // red
            pixels.push(0); // padding
        }
    }
    pixels
}

#[test]
fn one_pixel_stream_exact_bytes() {
    let out = serialize_bmp(1, 1, vec![10, 20, 30, 0]);
    let expected: Vec<u8> = vec![
        0x42, 0x4d, // "BM"
        58, 0, 0, 0, // file size 58
        0, 0, 0, 0, // reserved
        54, 0, 0, 0, // pixel data offset
        40, 0, 0, 0, // info header size
        1, 0, 0, 0, // width 1
        0xff, 0xff, 0xff, 0xff, // height -1 (top-down)
        1, 0, // planes
        32, 0, // bits per pixel
        0, 0, 0, 0, // compression
        0, 0, 0, 0, // image size
        0, 0, 0, 0, // x pixels per meter
        0, 0, 0, 0, // y pixels per meter
        0, 0, 0, 0, // colors used
        0, 0, 0, 0, // colors important
        10, 20, 30, 0, // the pixel
    ];
    assert_eq!(out, expected);
}

#[test]
fn stream_length_is_payload_plus_headers() {
    for &(w, h) in &[(1i32, 1i32), (3, 2), (64, 48), (96, 96)] {
        let pixels = sample_pixels(w as usize, h as usize);
        assert_eq!(pixels.len(), 4 * (w as usize) * (h as usize));
        let out = serialize_bmp(w, h, pixels.clone());
        assert_eq!(out.len(), 54 + 4 * (w as usize) * (h as usize));
        assert_eq!(le32(&out, 2) as usize, out.len());
        assert_eq!(&out[54..], &pixels[..]);
    }
}

#[test]
fn raw_buffer_without_headers_is_payload_alone() {
    let pixels = sample_pixels(5, 4);
    let raw = materialize_bytes(5, 4, pixels.clone(), false);
    assert_eq!(raw, pixels);
    let framed = materialize_bytes(5, 4, pixels.clone(), true);
    assert_eq!(framed.len(), pixels.len() + 54);
}

#[test]
fn pixel_offset_field_is_header_size_for_every_dimension() {
    for &(w, h) in &[(1i32, 1i32), (2, 7), (48, 96), (128, 1)] {
        let out = serialize_bmp(w, h, vec![0; 4 * (w as usize) * (h as usize)]);
        assert_eq!(le32(&out, 10), 54);
    }
}

#[test]
fn height_field_is_negated_absolute_height() {
    // A source that reports its height positive (bottom-up convention).
    let out = serialize_bmp(3, 2, vec![0; 24]);
    assert_eq!(le32s(&out, 22), -2);
    // A source that already reports a top-down, negative height.
    let out = serialize_bmp(3, -2, vec![0; 24]);
    assert_eq!(le32s(&out, 22), -2);
    assert_eq!(le32s(&out, 18), 3);
}

#[test]
fn format_fields_are_fixed() {
    let out = serialize_bmp(4, 4, vec![0; 64]);
    assert_eq!(&out[0..2], b"BM");
    assert_eq!(le16(&out, 26), 1); // planes
    assert_eq!(le16(&out, 28), 32); // bits per pixel
    assert_eq!(le32(&out, 30), 0); // uncompressed
    assert_eq!(le32(&out, 14), 40); // info header size
    assert_eq!(le32(&out, 6), 0); // reserved
}
