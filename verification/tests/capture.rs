use camera_man::capture::{
    camera_device_from_parts, camera_index_from_id, CameraLocator,
    first_frame_step, frame_gap_stall_age, frame_gap_timeout, open_stall_age, parse_open_timeout,
    rgba_to_bgra_in_place, stalled_open_error, CameraLeases, OneShotStep, ReconnectBackoff,
    WorkerPhase, MIN_FRAME_GAP_TIMEOUT,
};
use camera_man::error::{CameraManError, CaptureErrorKind, ErrorCode};

const MILLI: u64 = 1_000_000;
const SECOND: u64 = 1_000_000_000;

#[test]
fn converts_rgba_to_bgra_without_reallocating() {
    let mut pixels = vec![1, 2, 3, 4, 10, 20, 30, 40];
    let allocation = pixels.as_ptr();

    rgba_to_bgra_in_place(&mut pixels);

    assert_eq!(pixels, [3, 2, 1, 4, 30, 20, 10, 40]);
    assert_eq!(pixels.as_ptr(), allocation);
}

#[test]
fn classifies_representative_avfoundation_messages() {
    let samples = [
        (
            "AVFoundation authorization denied",
            CaptureErrorKind::PermissionDenied,
        ),
        ("device is already in use", CaptureErrorKind::DeviceBusy),
        ("no such device", CaptureErrorKind::DeviceNotFound),
        ("capture stream stopped", CaptureErrorKind::Disconnected),
    ];

    for (message, expected) in samples {
        assert_eq!(CaptureErrorKind::classify(message), expected);
    }
}

#[test]
fn camera_lease_serializes_reopen_for_the_same_id() {
    let id = "camera-lease-serializes-reopen";
    let mut leases = CameraLeases::new();
    assert!(leases.try_acquire(id));
    assert!(!leases.try_acquire(id));

    leases.release(id);

    assert!(leases.try_acquire(id));
}

#[test]
fn reconnect_backoff_is_bounded_and_resettable() {
    let mut backoff = ReconnectBackoff::default();
    let delays = (0..8).map(|_| backoff.next_delay()).collect::<Vec<_>>();
    assert_eq!(delays[0], 100 * MILLI);
    assert_eq!(delays[6], 5 * SECOND);
    assert_eq!(delays[7], 5 * SECOND);
    backoff.reset();
    assert_eq!(backoff.next_delay(), 100 * MILLI);
}

#[test]
fn reconnect_backoff_resets_only_after_a_real_frame() {
    let mut backoff = ReconnectBackoff::default();
    assert_eq!(backoff.next_delay(), 100 * MILLI);

    backoff.observe_frame(false);
    assert_eq!(backoff.next_delay(), 200 * MILLI);

    backoff.observe_frame(true);
    assert_eq!(backoff.next_delay(), 100 * MILLI);
}

#[test]
fn open_timeout_defaults_generously_and_honors_the_env_override() {
    assert_eq!(parse_open_timeout(None), 20_000);
    assert_eq!(parse_open_timeout(Some(" 2500 ")), 2_500);
    assert_eq!(parse_open_timeout(Some("0")), 20_000);
    assert_eq!(parse_open_timeout(Some("abc")), 20_000);
}

#[test]
fn a_stalled_open_reports_a_timeout_instead_of_a_missing_frame() {
    let error = stalled_open_error("uid:desk", WorkerPhase::Opening, 30 * SECOND, 20 * SECOND)
        .expect("an open past its deadline must be a failure");

    assert_eq!(error.code(), ErrorCode::Capture(CaptureErrorKind::Timeout));
    assert!(error.diagnostic_message().contains("uid:desk"));
}

#[test]
fn a_warm_up_within_the_deadline_is_not_a_failure() {
    for phase in [WorkerPhase::Opening, WorkerPhase::AwaitingFirstFrame] {
        assert!(stalled_open_error("uid:desk", phase, 19 * SECOND, 20 * SECOND).is_none());
    }
}

#[test]
fn a_streaming_worker_is_never_reported_by_the_pre_frame_watchdog() {
    assert!(
        stalled_open_error("uid:desk", WorkerPhase::Streaming, 600 * SECOND, 20 * SECOND)
            .is_none()
    );
}

#[test]
fn each_worker_phase_is_owned_by_exactly_one_watchdog() {
    for phase in [
        WorkerPhase::AwaitingLease,
        WorkerPhase::Opening,
        WorkerPhase::AwaitingFirstFrame,
        WorkerPhase::Streaming,
    ] {
        let before_first_frame = open_stall_age(phase, 600 * SECOND, 20 * SECOND).is_some();
        let mid_stream = frame_gap_stall_age(phase, 600 * SECOND, 2 * SECOND).is_some();
        assert!(
            before_first_frame ^ mid_stream,
            "{phase:?} must be claimed by exactly one watchdog, not both or neither"
        );
    }
}

#[test]
fn frame_gap_timeout_scales_with_the_negotiated_frame_rate() {
    assert_eq!(frame_gap_timeout(30), 2 * SECOND);
    assert_eq!(frame_gap_timeout(60), MIN_FRAME_GAP_TIMEOUT);
    assert_eq!(frame_gap_timeout(15), 4 * SECOND);
    assert_eq!(frame_gap_timeout(5), 12 * SECOND);
    assert_eq!(frame_gap_timeout(0), MIN_FRAME_GAP_TIMEOUT);
}

#[test]
fn a_lease_wait_past_the_deadline_names_the_earlier_open() {
    let error = stalled_open_error(
        "uid:desk",
        WorkerPhase::AwaitingLease,
        21 * SECOND,
        20 * SECOND,
    )
    .expect("a lease wait past its deadline must be a failure");

    assert_eq!(error.code(), ErrorCode::Capture(CaptureErrorKind::Timeout));
    assert!(error
        .diagnostic_message()
        .contains("still held by an earlier capture"));
}

#[test]
fn a_one_shot_waits_for_the_camera_lease_instead_of_opening_the_device() {
    let id = "camera-one-shot-waits-for-the-lease";
    let mut leases = CameraLeases::new();
    assert!(
        leases.try_acquire(id),
        "the test must start with the camera free"
    );
    // The one-shot's worker cannot take the lease, so its source never
    // publishes a frame and the deadline is all that can end the wait.
    assert!(!leases.try_acquire(id));
    let error = match first_frame_step(Ok(None), 0, id, 100_000_000) {
        OneShotStep::Finished(Err(error)) => error,
        other => panic!("a one-shot must not open a camera id another path holds: {other:?}"),
    };

    assert_eq!(error.code(), ErrorCode::Capture(CaptureErrorKind::Timeout));
    assert!(
        error
            .diagnostic_message()
            .contains("delivered no frame within 100ms"),
        "a leased one-shot reports its own deadline, not a backend open failure: {}",
        error.diagnostic_message()
    );
}

#[test]
fn a_one_shot_keeps_polling_until_its_deadline() {
    assert!(matches!(
        first_frame_step(Ok(None), 5_000_000, "cam", 100_000_000),
        OneShotStep::Sleep(5_000_000)
    ));
    assert!(matches!(
        first_frame_step(Ok(None), 500_000_000, "cam", 100_000_000),
        OneShotStep::Sleep(20_000_000)
    ));
    let failure = CameraManError::capture_with_kind(CaptureErrorKind::Disconnected, "gone");
    match first_frame_step(Err(failure), 0, "cam", 100_000_000) {
        OneShotStep::Finished(Err(error)) => {
            assert_eq!(error.code(), ErrorCode::Capture(CaptureErrorKind::Disconnected))
        }
        other => panic!("a source error must end the wait: {other:?}"),
    }
}

#[test]
fn stable_uid_and_legacy_index_open_through_distinct_locators() {
    assert_eq!(camera_index_from_id("0").as_string(), "0");
    assert_eq!(
        camera_index_from_id("uid:avfoundation-device").as_string(),
        "avfoundation-device"
    );
    assert_eq!(camera_index_from_id("7"), CameraLocator::Index(7));
    assert_eq!(
        camera_index_from_id("4294967296"),
        CameraLocator::Name(String::from("4294967296"))
    );
    assert_eq!(
        camera_index_from_id("FaceTime"),
        CameraLocator::Name(String::from("FaceTime"))
    );
}

#[test]
fn a_device_with_a_unique_id_keeps_its_index_as_an_alias() {
    let stable = camera_device_from_parts("0", "0x1420000005ac8600", "FaceTime HD Camera");
    assert_eq!(stable.id, "uid:0x1420000005ac8600");
    assert_eq!(stable.aliases, vec![String::from("0")]);
    assert_eq!(stable.name, "FaceTime HD Camera");
    let legacy = camera_device_from_parts("1", "  ", "USB Camera");
    assert_eq!(legacy.id, "1");
    assert!(legacy.aliases.is_empty());
}
