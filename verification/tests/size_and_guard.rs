//! The size table and the shell-runtime guard.

use thumbcache::ComLibrary;
use thumbcache::Extent;
use thumbcache::ThumbSize;

#[test]
fn named_sizes_map_to_their_extents() {
    let cases = [
        (ThumbSize::S16, 16),
        (ThumbSize::S32, 32),
        (ThumbSize::S48, 48),
        (ThumbSize::S96, 96),
        (ThumbSize::S256, 256),
        (ThumbSize::S768, 768),
        (ThumbSize::S1280, 1280),
        (ThumbSize::S1920, 1920),
        (ThumbSize::S2560, 2560),
    ];
    for (size, edge) in cases {
        assert_eq!(size.to_size(), Extent { cx: edge, cy: edge });
    }
}

#[test]
fn custom_size_keeps_its_dimensions() {
    assert_eq!(ThumbSize::Custom(640, 360).to_size(), Extent { cx: 640, cy: 360 });
    assert_eq!(ThumbSize::Custom(-1, 0).to_size(), Extent { cx: -1, cy: 0 });
}

#[test]
fn guard_is_spent_by_release() {
    let mut guard = ComLibrary::init();
    assert!(guard.active());
    guard.release();
    assert!(!guard.active());
}

#[test]
fn each_context_owns_its_own_guard() {
    let mut first = ComLibrary::init();
    let second = ComLibrary::init();
    first.release();
    assert!(!first.active());
    assert!(second.active());
}
