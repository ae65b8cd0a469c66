use camera_man::error::{CameraManError, CaptureErrorKind, ErrorCode};

#[test]
fn classifies_common_capture_failures() {
    assert_eq!(
        CaptureErrorKind::classify("Permission denied by the OS"),
        CaptureErrorKind::PermissionDenied
    );
    assert_eq!(
        CaptureErrorKind::classify("Device is busy"),
        CaptureErrorKind::DeviceBusy
    );
    assert_eq!(
        CaptureErrorKind::classify("camera not found"),
        CaptureErrorKind::DeviceNotFound
    );
    assert_eq!(
        CaptureErrorKind::classify("stream stopped unexpectedly"),
        CaptureErrorKind::Disconnected
    );
    assert_eq!(
        CaptureErrorKind::classify("no such device, already removed"),
        CaptureErrorKind::DeviceNotFound,
        "a generic 'already' must not shadow a more specific not-found phrase"
    );
    assert_eq!(
        CaptureErrorKind::classify("operation not supported"),
        CaptureErrorKind::Unsupported
    );
    assert_eq!(
        CaptureErrorKind::classify("timed out waiting for frame"),
        CaptureErrorKind::Timeout
    );
    assert_eq!(
        CaptureErrorKind::classify("something weird happened"),
        CaptureErrorKind::Other
    );
}

#[test]
fn every_classifier_row_can_actually_fire() {
    let rows = CaptureErrorKind::classifiers();
    for (index, (kind, needles)) in rows.iter().enumerate() {
        for needle in needles {
            assert_eq!(
                needle.to_ascii_lowercase(),
                *needle,
                "needle {needle} of {kind:?} does not match its own folded form"
            );
            let shadowed = rows[..index]
                .iter()
                .flat_map(|(_, earlier)| earlier.iter())
                .find(|earlier| needle.contains(*earlier));
            assert!(
                shadowed.is_none(),
                "needle {needle} of {kind:?} is covered by earlier row needle {shadowed:?}"
            );
        }
    }
}

#[test]
fn classifier_row_order_decides_a_message_that_matches_two_rows() {
    let rows = CaptureErrorKind::classifiers();
    for (index, (winner, needles)) in rows.iter().enumerate() {
        for (loser, loser_needles) in &rows[index + 1..] {
            let message = format!("{} {}", needles[0], loser_needles[0]);
            assert_eq!(
                CaptureErrorKind::classify(&message),
                *winner,
                "{message} matches both {winner:?} and {loser:?}, so table order decides"
            );
        }
    }
}

#[test]
fn structured_code_and_user_message_survive_context() {
    let error = CameraManError::capture_with_kind(
        CaptureErrorKind::PermissionDenied,
        "AVFoundation authorization status denied",
    )
    .context("open camera 0");

    assert_eq!(
        error.code(),
        ErrorCode::Capture(CaptureErrorKind::PermissionDenied)
    );
    assert_eq!(error.code().as_str(), "capture_permission_denied");
    assert_eq!(
        error.user_message(),
        "Camera access was denied. Allow CameraMan in System Settings > Privacy & Security > Camera."
    );
    assert_eq!(
        error.diagnostic_message(),
        "open camera 0: capture error (PermissionDenied): AVFoundation authorization status denied"
    );
    assert!(matches!(error, CameraManError::Context { .. }));
}

#[test]
fn actionable_message_contains_operation_cause_and_recovery() {
    let message = CameraManError::capture_with_kind(
        CaptureErrorKind::DeviceBusy,
        "AVFoundation reported exclusive ownership",
    )
    .actionable_message("Open Desk Camera");

    assert!(message.starts_with("Open Desk Camera failed."));
    assert!(message.contains("already in use"));
    assert!(message.contains("Close the other app"));
}

#[test]
fn an_io_failure_names_its_error_kind() {
    let error = CameraManError::Io {
        kind: std::io::ErrorKind::NotFound,
        message: String::from("scene.json is missing"),
    };
    assert_eq!(error.code(), ErrorCode::Io);
    assert_eq!(
        error.diagnostic_message(),
        "io error (NotFound): scene.json is missing"
    );
}

#[test]
fn every_error_code_has_its_own_text() {
    let codes = [
        ErrorCode::EmptyInput,
        ErrorCode::EmptyFrame,
        ErrorCode::Capture(CaptureErrorKind::PermissionDenied),
        ErrorCode::Capture(CaptureErrorKind::DeviceBusy),
        ErrorCode::Capture(CaptureErrorKind::DeviceNotFound),
        ErrorCode::Capture(CaptureErrorKind::Disconnected),
        ErrorCode::Capture(CaptureErrorKind::Unsupported),
        ErrorCode::Capture(CaptureErrorKind::Timeout),
        ErrorCode::Capture(CaptureErrorKind::Other),
        ErrorCode::InvalidDimensions,
        ErrorCode::InvalidBufferLength,
        ErrorCode::InvalidRowStride,
        ErrorCode::InvalidMediaContract,
        ErrorCode::PixelOutOfBounds,
        ErrorCode::BufferTooLarge,
        ErrorCode::FrameLimitExceeded,
        ErrorCode::Io,
        ErrorCode::UnsupportedPixelFormat,
        ErrorCode::VirtualCameraUnavailable,
    ];
    let mut texts = codes.iter().map(|code| code.as_str()).collect::<Vec<_>>();
    texts.sort_unstable();
    texts.dedup();
    assert_eq!(texts.len(), 19);
}
