use camera_man::media_contract::FrameContract;
use camera_man::error::CameraManError;
use camera_man::frame::{
    default_frame_limits, physical_memory_from_pages, Frame, FrameLimits, FrameView, PixelFormat,
    MAX_DEFAULT_FRAME_BYTES, MIN_DEFAULT_FRAME_BYTES,
};

#[test]
fn rejects_wrong_buffer_length() {
    let err = Frame::new_checked(2, 2, PixelFormat::Bgra8, vec![0; 15], None, None).unwrap_err();
    assert_eq!(
        err,
        CameraManError::InvalidBufferLength {
            expected: 16,
            actual: 15
        }
    );
}

#[test]
fn creates_solid_frame() {
    let frame = Frame::solid_bgra(2, 1, [10, 20, 30, 255], None, None).unwrap();
    assert_eq!(frame.bgra_at(0, 0), Some([10, 20, 30, 255]));
    assert_eq!(frame.bgra_at(1, 0), Some([10, 20, 30, 255]));
}

#[test]
fn clone_shares_pixels_until_mutated() {
    let original = Frame::solid_bgra(2, 1, [10, 20, 30, 255], None, None).unwrap();
    let mut cloned = original.clone();

    assert!(original.shares_pixels_with(&cloned));

    cloned.set_bgra(0, 0, [1, 2, 3, 255]);

    assert!(!original.shares_pixels_with(&cloned));
    assert_eq!(original.bgra_at(0, 0), Some([10, 20, 30, 255]));
    assert_eq!(cloned.bgra_at(0, 0), Some([1, 2, 3, 255]));
}

#[test]
fn frame_limits_follow_system_memory_budget() {
    assert_eq!(
        FrameLimits::for_physical_memory(512 * 1024 * 1024).max_frame_bytes(),
        MIN_DEFAULT_FRAME_BYTES
    );
    assert_eq!(
        FrameLimits::for_physical_memory(4 * 1024 * 1024 * 1024).max_frame_bytes(),
        256 * 1024 * 1024
    );
    assert_eq!(
        FrameLimits::for_physical_memory(128 * 1024 * 1024 * 1024).max_frame_bytes(),
        MAX_DEFAULT_FRAME_BYTES
    );
}

#[test]
fn explicit_frame_limit_rejects_before_buffer_validation() {
    let error = Frame::new_checked_with_limits(
        2,
        2,
        PixelFormat::Bgra8,
        Vec::new(),
        FrameLimits::new(15),
    )
    .unwrap_err();

    assert_eq!(
        error,
        CameraManError::FrameLimitExceeded {
            bytes: 16,
            limit: 15
        }
    );
}

#[test]
fn padded_frame_view_converts_to_tightly_packed_pixels() {
    let padded = [
        1, 2, 3, 255, 4, 5, 6, 255, 99, 99, 99, 99, 10, 20, 30, 255, 40, 50, 60, 255, 88, 88, 88,
        88,
    ];
    let view = FrameView::new_checked(2, 2, PixelFormat::Bgra8, 12, &padded).unwrap();

    assert_eq!(view.row_stride(), 12);
    assert_eq!(view.row(0).unwrap().len(), 8);
    assert_eq!(view.bgra_at(1, 1), Some([40, 50, 60, 255]));

    let owned = view
        .to_owned_tightly_packed_with_limits(FrameLimits::new(16))
        .unwrap();
    assert_eq!(owned.data().len(), 16);
    assert_eq!(owned.bgra_at(0, 1), Some([10, 20, 30, 255]));
}

#[test]
fn frame_view_rejects_short_stride() {
    let error = FrameView::new_checked(2, 1, PixelFormat::Bgra8, 7, &[0; 8]).unwrap_err();
    assert_eq!(
        error,
        CameraManError::InvalidRowStride {
            minimum: 8,
            actual: 7
        }
    );
}

#[test]
fn checked_pixel_writer_reports_coordinates() {
    let mut frame = Frame::solid_bgra(2, 1, [0, 0, 0, 255], None, None).unwrap();

    let error = frame.try_set_bgra(2, 0, [1, 2, 3, 255]).unwrap_err();

    assert_eq!(
        error,
        CameraManError::PixelOutOfBounds {
            x: 2,
            y: 0,
            width: 2,
            height: 1
        }
    );
}

#[test]
fn process_policy_prefers_a_positive_override() {
    assert_eq!(default_frame_limits(Some("4096"), Some(1 << 40)).max_frame_bytes(), 4096);
    assert_eq!(
        default_frame_limits(Some("0"), Some(4 * 1024 * 1024 * 1024)).max_frame_bytes(),
        256 * 1024 * 1024
    );
    assert_eq!(
        default_frame_limits(Some("lots"), Some(512 * 1024 * 1024)).max_frame_bytes(),
        MIN_DEFAULT_FRAME_BYTES
    );
    assert_eq!(default_frame_limits(None, None).max_frame_bytes(), MAX_DEFAULT_FRAME_BYTES);
}

#[test]
fn default_limit_functions_follow_the_process_policy() {
    let error = Frame::new_checked(2, 2, PixelFormat::Bgra8, vec![0; 16], Some("15"), None)
        .unwrap_err();
    assert_eq!(error, CameraManError::FrameLimitExceeded { bytes: 16, limit: 15 });
    assert!(Frame::solid_bgra(2, 2, [1, 2, 3, 255], Some("15"), None).is_err());
    assert!(Frame::solid_bgra(2, 2, [1, 2, 3, 255], Some("16"), None).is_ok());
    let data = [0u8; 16];
    let view = FrameView::new_checked(2, 2, PixelFormat::Bgra8, 8, &data).unwrap();
    assert!(view.to_owned_tightly_packed(Some("8"), None).is_err());
}

#[test]
fn physical_memory_needs_positive_sysconf_answers() {
    assert_eq!(physical_memory_from_pages(1024, 4096), Some(4 * 1024 * 1024));
    assert_eq!(physical_memory_from_pages(-1, 4096), None);
    assert_eq!(physical_memory_from_pages(1024, 0), None);
    assert_eq!(physical_memory_from_pages(i64::MAX, i64::MAX), None);
}

#[test]
fn tight_frame_survives_a_view_round_trip() {
    let frame = Frame::solid_bgra(3, 2, [9, 8, 7, 255], None, None).unwrap();
    let copy = frame.as_view().to_owned_tightly_packed(None, None).unwrap();
    assert_eq!(copy, frame);
}

#[test]
fn mismatched_contract_is_refused_with_the_validation_error() {
    let mut frame = Frame::solid_bgra(2, 1, [1, 2, 3, 255], None, None).unwrap();
    let before = frame.clone();
    let error = frame.set_contract(FrameContract::canonical_bgra(3, 1)).unwrap_err();
    assert_eq!(
        error,
        CameraManError::InvalidMediaContract("contract geometry does not match the frame")
    );
    assert_eq!(frame, before);
}
