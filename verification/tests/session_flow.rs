//! Driving the request protocol through success and every failure
//! stage, watching the resource bookkeeping.

use thumbcache::Action;
use thumbcache::BitmapGeometry;
use thumbcache::ThumbError;
use thumbcache::ThumbSession;

fn geometry(width: i32, height: i32) -> BitmapGeometry {
    BitmapGeometry { width, height, row_stride: width * 4, bits_per_pixel: 32 }
}

/// Runs a session to completion, forcing the given stage to fail, and
/// returns (outcome, copy_was_issued, balanced).
fn drive(fail_at: Option<&str>) -> (Result<Vec<u8>, ThumbError>, bool, bool) {
    let mut session = ThumbSession::new(96, 96, true);
    let mut copy_issued = false;
    loop {
        match session.next_action() {
            Action::ResolvePath => {
                if fail_at == Some("resolve") {
                    session.resolve_failed(-101);
                } else {
                    session.resolve_succeeded();
                }
            }
            Action::QueryCapability => {
                if fail_at == Some("capability") {
                    session.capability_denied(-102);
                } else {
                    session.capability_granted();
                }
            }
            Action::RequestImage(w, h) => {
                assert_eq!((w, h), (96, 96));
                if fail_at == Some("acquire") {
                    session.image_denied(-103);
                } else {
                    session.image_acquired();
                }
            }
            Action::QueryGeometry => {
                if fail_at == Some("geometry") {
                    session.geometry_failed(-104);
                } else {
                    session.geometry_found(geometry(64, 48));
                }
            }
            Action::CreateContext => session.context_created(),
            Action::CopyPixels { rows, buffer_len } => {
                copy_issued = true;
                assert_eq!(rows, 48);
                assert_eq!(buffer_len, 4 * 64 * 48);
                let bits = vec![0x55u8; buffer_len];
                if fail_at == Some("copy") {
                    session.pixels_copied(0, -105, bits);
                } else {
                    session.pixels_copied(rows as i32, 0, bits);
                }
            }
            Action::ReleaseContext => session.context_released(),
            Action::ReleaseHandle => session.handle_released(),
            Action::Complete => break,
        }
    }
    let balanced = session.resources_balanced();
    assert!(session.is_finished());
    (session.into_outcome(), copy_issued, balanced)
}

#[test]
fn successful_request_yields_headed_stream_of_actual_geometry() {
    let (outcome, copy_issued, balanced) = drive(None);
    assert!(copy_issued);
    assert!(balanced);
    let bytes = outcome.expect("pipeline should succeed");
    // The stream reflects the geometry the shell returned (64x48), not
    // the 96x96 request bound.
    assert_eq!(&bytes[0..2], b"BM");
    assert_eq!(i32::from_le_bytes([bytes[18], bytes[19], bytes[20], bytes[21]]), 64);
    assert_eq!(i32::from_le_bytes([bytes[22], bytes[23], bytes[24], bytes[25]]), -48);
    assert_eq!(u16::from_le_bytes([bytes[28], bytes[29]]), 32);
    assert_eq!(bytes.len(), 54 + 4 * 64 * 48);
    assert!(bytes[54..].iter().all(|&b| b == 0x55));
}

#[test]
fn resolve_failure_reports_path_error_without_transfer() {
    let (outcome, copy_issued, balanced) = drive(Some("resolve"));
    assert!(!copy_issued);
    assert!(balanced);
    assert!(matches!(outcome, Err(ThumbError::PathResolution(-101))));
}

#[test]
fn capability_failure_reports_capability_error() {
    let (outcome, copy_issued, balanced) = drive(Some("capability"));
    assert!(!copy_issued);
    assert!(balanced);
    assert!(matches!(outcome, Err(ThumbError::Capability(-102))));
}

#[test]
fn acquisition_failure_reports_acquisition_error_without_transfer() {
    let (outcome, copy_issued, balanced) = drive(Some("acquire"));
    assert!(!copy_issued);
    assert!(balanced);
    assert!(matches!(outcome, Err(ThumbError::Acquisition(-103))));
}

#[test]
fn geometry_failure_still_releases_the_handle() {
    let (outcome, copy_issued, balanced) = drive(Some("geometry"));
    assert!(!copy_issued);
    assert!(balanced);
    assert!(matches!(outcome, Err(ThumbError::GeometryQuery(-104))));
}

#[test]
fn zero_rows_copied_reports_pixel_transfer_error() {
    let (outcome, copy_issued, balanced) = drive(Some("copy"));
    assert!(copy_issued);
    assert!(balanced);
    assert!(matches!(outcome, Err(ThumbError::PixelTransfer(-105))));
}

#[test]
fn repeated_failing_requests_release_every_resource() {
    // Many sequential requests on one context, every one forced to
    // fail at the pixel transfer: nothing may stay acquired.
    for _ in 0..16 {
        let (outcome, copy_issued, balanced) = drive(Some("copy"));
        assert!(balanced);
        assert!(copy_issued);
        assert!(outcome.is_err());
    }
}

#[test]
fn oversized_geometry_is_rejected_before_the_copy() {
    let mut session = ThumbSession::new(1 << 20, 1 << 20, true);
    session.resolve_succeeded();
    session.capability_granted();
    session.image_acquired();
    // Within the requested bounds, but |width| * |height| * 4
    // overflows the 32-bit file-size field.
    session.geometry_found(geometry(1 << 20, 1 << 20));
    assert!(matches!(session.next_action(), Action::ReleaseHandle));
    session.handle_released();
    assert!(session.resources_balanced());
    assert!(matches!(
        session.into_outcome(),
        Err(ThumbError::GeometryQuery(thumbcache::session::OVERSIZED_GEOMETRY))
    ));
}

#[test]
fn raw_mode_returns_pixels_without_headers() {
    let mut session = ThumbSession::new(32, 32, false);
    session.resolve_succeeded();
    session.capability_granted();
    session.image_acquired();
    session.geometry_found(geometry(2, 2));
    session.context_created();
    let bits = vec![1u8, 2, 3, 4, 5, 6, 7, 8, 9, 10, 11, 12, 13, 14, 15, 16];
    session.pixels_copied(2, 0, bits.clone());
    session.context_released();
    session.handle_released();
    assert_eq!(session.into_outcome().unwrap(), bits);
}
