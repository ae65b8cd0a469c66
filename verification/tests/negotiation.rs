use camera_man::error::CameraManError;
use camera_man::format_negotiation::{
    fixed_output_format, negotiate_stream, validate_advertised_format, CapabilityRejection,
    FormatEpochCoordinator, FrameOwnershipMode, LatencyMode, StreamRequest,
};
use camera_man::media_contract::Colorimetry;

#[test]
fn rejected_reset_does_not_publish_new_epoch() {
    let mut coordinator = FormatEpochCoordinator::default();
    let before = coordinator.snapshot();
    let mut next = before.format;
    next.fps = 60;

    let result = coordinator.renegotiate(next, |_| {
        Err(CameraManError::VirtualCameraUnavailable(
            "test reset failure",
        ))
    });

    assert!(result.is_err());
    assert_eq!(coordinator.snapshot(), before);
}

#[test]
fn successful_reset_and_epoch_are_committed_together() {
    let mut coordinator = FormatEpochCoordinator::default();
    let mut next = coordinator.snapshot().format;
    next.fps = 60;
    let mut reset_epoch = None;

    let transition = coordinator
        .renegotiate(next, |candidate| {
            reset_epoch = Some(candidate.epoch);
            Ok(())
        })
        .unwrap()
        .unwrap();

    assert_eq!(reset_epoch, Some(transition.current.epoch));
    assert_eq!(coordinator.snapshot(), transition.current);
}

#[test]
fn does_not_claim_unimplemented_output_geometry() {
    let mut unsupported = fixed_output_format();
    unsupported.width = 1280;
    assert!(validate_advertised_format(unsupported).is_err());
}

#[test]
fn typed_negotiation_accepts_only_the_complete_advertised_contract() {
    let request = StreamRequest {
        format: fixed_output_format(),
        colorimetry: Colorimetry::Bt709FullOpaque,
        latency_mode: LatencyMode::InteractiveLatestFrame,
        ownership: FrameOwnershipMode::BorrowedUntilRelease,
    };
    assert_eq!(
        negotiate_stream(request).unwrap().format,
        fixed_output_format()
    );

    let rejection = negotiate_stream(StreamRequest {
        latency_mode: LatencyMode::BufferedQuality,
        ..request
    })
    .unwrap_err();
    assert_eq!(rejection, CapabilityRejection::LatencyMode);
    assert!(rejection.reason().contains("latency"));
}

#[test]
fn unsupported_format_is_refused_without_a_reset() {
    let mut coordinator = FormatEpochCoordinator::default();
    let before = coordinator.snapshot();
    let mut unsupported = before.format;
    unsupported.width = 1280;
    let mut resets = 0;

    let result = coordinator.renegotiate(unsupported, |_| {
        resets += 1;
        Ok(())
    });

    assert_eq!(
        result,
        Err(CameraManError::InvalidMediaContract(
            "requested dimensions are not advertised"
        ))
    );
    assert_eq!(resets, 0);
    assert_eq!(coordinator.snapshot(), before);
    assert_ne!(coordinator.snapshot().epoch, 0);
}
