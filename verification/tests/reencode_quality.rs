//! Re-encoding the serialized bitmap through the real codec.

use thumbcache::bitmap::serialize_bmp;
use thumbcache::reencode;
use thumbcache::ThumbError;

/// A 64x48 noisy gradient, 32 bits per pixel.
fn sample_bitmap() -> Vec<u8> {
    let (w, h) = (64usize, 48usize);
    let mut pixels = Vec::with_capacity(4 * w * h);
    for y in 0..h {
        for x in 0..w {
            pixels.push(((x * 5) ^ (y * 11)) as u8);
            pixels.push((x * x + y) as u8);
            pixels.push((255 - x * 3 + y * 7) as u8);
            pixels.push(0);
        }
    }
    serialize_bmp(w as i32, h as i32, pixels)
}

#[test]
fn reencoded_stream_is_a_jpeg() {
    let bmp = sample_bitmap();
    let jpeg = reencode(&bmp, 85).expect("a well-formed bitmap must re-encode");
    // JPEG start-of-image marker; the input began with "BM" instead.
    assert_eq!(&jpeg[0..2], &[0xff, 0xd8]);
    assert_ne!(jpeg, bmp);
}

#[test]
fn quality_changes_size_but_not_dimensions() {
    let bmp = sample_bitmap();
    let high = reencode(&bmp, 85).unwrap();
    let low = reencode(&bmp, 10).unwrap();
    assert_ne!(high.len(), low.len());
    assert!(low.len() <= high.len());
    let decoded_high = image::load_from_memory(&high).unwrap();
    let decoded_low = image::load_from_memory(&low).unwrap();
    let source = image::load_from_memory(&bmp).unwrap();
    assert_eq!((decoded_high.width(), decoded_high.height()), (source.width(), source.height()));
    assert_eq!((decoded_low.width(), decoded_low.height()), (source.width(), source.height()));
    assert_eq!((source.width(), source.height()), (64, 48));
}

#[test]
fn boundary_qualities_are_accepted() {
    let bmp = sample_bitmap();
    assert!(reencode(&bmp, 0).is_ok());
    assert!(reencode(&bmp, 100).is_ok());
}

#[test]
fn malformed_stream_is_a_decode_error() {
    let garbage = vec![0xabu8; 200];
    match reencode(&garbage, 85) {
        Err(ThumbError::Decode(_)) => {}
        other => panic!("expected a decode error, got {:?}", other.map(|v| v.len())),
    }
    let empty: Vec<u8> = Vec::new();
    assert!(matches!(reencode(&empty, 85), Err(ThumbError::Decode(_))));
}

#[test]
fn reencoding_is_a_function_of_bytes_and_quality() {
    // The decode path uses only the fixed magic-byte table and the
    // built-in decoders, so equal inputs give equal outputs.
    let bmp = sample_bitmap();
    let first = reencode(&bmp, 42).unwrap();
    let second = reencode(&bmp, 42).unwrap();
    assert_eq!(first, second);
}

#[test]
fn truncated_bitmap_is_a_decode_error() {
    let mut bmp = sample_bitmap();
    bmp.truncate(40);
    assert!(matches!(reencode(&bmp, 85), Err(ThumbError::Decode(_))));
}
