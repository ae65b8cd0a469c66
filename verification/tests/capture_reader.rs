use camera_man::capture::{CameraLeases, CaptureReader, CaptureSnapshot, WorkerPhase};
use camera_man::config::VideoFormat;
use camera_man::error::{CameraManError, CaptureErrorKind, ErrorCode};
use camera_man::frame::{CapturedFrame, Frame, FrameMetadata, PixelFormat};

const SECOND: u64 = 1_000_000_000;

const TEST_TARGET: VideoFormat = VideoFormat {
    width: 1280,
    height: 720,
    fps: 30,
    pixel_format: PixelFormat::Bgra8,
};

fn frame(id: &str, sequence: u64) -> CapturedFrame {
    let frame = Frame::new_checked(2, 2, PixelFormat::Bgra8, vec![0; 16], None, None).unwrap();
    CapturedFrame::new(frame, FrameMetadata::new(id, sequence))
}

/// What a worker that opened at `fps` and last published `gap` nanoseconds
/// ago leaves for its reader.
fn streaming(id: &str, fps: u32, gap: u64, latest: bool) -> CaptureSnapshot {
    CaptureSnapshot {
        phase: WorkerPhase::Streaming,
        phase_elapsed: gap,
        negotiated_format: Some(VideoFormat { fps, ..TEST_TARGET }),
        last_error: None,
        latest: if latest { Some(frame(id, 7)) } else { None },
    }
}

fn before_streaming(phase: WorkerPhase, elapsed: u64) -> CaptureSnapshot {
    CaptureSnapshot {
        phase,
        phase_elapsed: elapsed,
        negotiated_format: None,
        last_error: None,
        latest: None,
    }
}

#[test]
fn a_slow_but_healthy_camera_at_low_fps_is_not_reported_stale() {
    let reader = CaptureReader::new("uid:slow", 0, 0);
    assert!(!reader.frame_gap_exceeded(&streaming("uid:slow", 5, 3 * SECOND, true)));
    assert_eq!(reader.stall_age(&streaming("uid:slow", 5, 3 * SECOND, true)), 0);
    assert!(reader
        .latest_frame(streaming("uid:slow", 5, 3 * SECOND, true))
        .expect("a camera within its own frame interval is healthy")
        .is_some());
}

#[test]
fn a_read_that_hangs_after_frames_arrived_is_reported_instead_of_repeating_the_last_frame() {
    let reader = CaptureReader::new("uid:desk", 0, 0);
    let error = reader
        .latest_frame(streaming("uid:desk", 30, 5 * SECOND, true))
        .expect_err("a wedged read must not keep handing out the same frame");
    assert_eq!(error.code(), ErrorCode::Capture(CaptureErrorKind::Timeout));
    let message = error.diagnostic_message();
    assert!(message.contains("uid:desk"));
    assert!(message.contains("stopped delivering frames"));
    assert!(!message.contains("did not return"));
}

#[test]
fn a_wedged_read_is_visible_to_the_source_row_not_only_to_the_reader() {
    let id = "uid:row";
    let reader = CaptureReader::new(id, 0, 0);
    assert!(reader.frame_gap_exceeded(&streaming(id, 30, 5 * SECOND, true)));
    // The driver returned and the worker republished `Streaming`.
    assert!(!reader.frame_gap_exceeded(&streaming(id, 30, 0, true)));
}

#[test]
fn a_frame_timestamped_before_a_system_sleep_is_not_a_stall() {
    let id = "uid:woke";
    let reader = CaptureReader::new(id, 0, 0);
    let mut metadata = FrameMetadata::new(id, 7);
    metadata.timestamps.monotonic.0 = 0;
    let old_frame = CapturedFrame::new(
        Frame::new_checked(2, 2, PixelFormat::Bgra8, vec![0; 16], None, None).unwrap(),
        metadata,
    );
    let snapshot = CaptureSnapshot { latest: Some(old_frame), ..streaming(id, 30, 0, false) };
    assert!(!reader.frame_gap_exceeded(&snapshot));
    assert_eq!(reader.stall_age(&snapshot), 0);
    assert!(reader.latest_frame(snapshot).unwrap().is_some());
}

#[test]
fn a_worker_in_reconnect_backoff_is_not_described_as_open_and_silent() {
    let id = "uid:unplugged";
    let reader = CaptureReader::new(id, 0, 0);
    let failed = || CaptureSnapshot {
        last_error: Some(CameraManError::capture("read uid:unplugged: device removed")),
        ..streaming(id, 30, 5 * SECOND, true)
    };
    assert!(!reader.frame_gap_exceeded(&failed()));
    assert_eq!(reader.stall_age(&failed()), 0);
    let error = reader.latest_frame(failed()).expect_err("the published error still speaks");
    assert!(error.diagnostic_message().contains("device removed"));

    // Backoff withdraws the format while the phase still reads `Streaming`.
    let closed = CaptureSnapshot { negotiated_format: None, ..streaming(id, 30, 5 * SECOND, true) };
    assert!(!reader.frame_gap_exceeded(&closed));
    assert_eq!(reader.stall_age(&closed), 0);
}

#[test]
fn frames_resuming_clear_a_stall_without_reopening_the_camera() {
    let id = "uid:resume";
    let reader = CaptureReader::new(id, 0, 0);
    assert!(reader.latest_frame(streaming(id, 30, 5 * SECOND, true)).is_err());
    assert!(reader.latest_frame(streaming(id, 30, 0, true)).unwrap().is_some());
    assert_eq!(reader.stall_age(&streaming(id, 30, 0, true)), 0);
    // Recovery is the same worker resuming: nothing took the camera's lease.
    let mut leases = CameraLeases::new();
    assert!(leases.try_acquire(id));
}

#[test]
fn a_mid_stream_stall_is_inherited_by_a_replacement_like_a_hung_open() {
    let reader = CaptureReader::new("uid:desk", 0, 0);
    assert!(reader.stall_age(&streaming("uid:desk", 30, 5 * SECOND, true)) >= 5 * SECOND);
}

#[test]
fn an_empty_slot_while_streaming_is_still_watched() {
    let reader = CaptureReader::new("uid:desk", 0, 0);
    assert!(reader.latest_frame(streaming("uid:desk", 30, 0, false)).unwrap().is_none());
    let error = reader
        .latest_frame(streaming("uid:desk", 30, 5 * SECOND, false))
        .expect_err("a streaming worker that publishes nothing is still stalled");
    assert_eq!(error.code(), ErrorCode::Capture(CaptureErrorKind::Timeout));
}

#[test]
fn a_reader_whose_worker_is_stuck_opening_returns_an_error_not_no_frame() {
    // A zero deadline expires the phase without waiting on a real clock.
    let reader = CaptureReader::new("uid:desk", 0, 0);
    let error = reader
        .latest_frame(before_streaming(WorkerPhase::Opening, 0))
        .expect_err("a stuck open must not read as a missing frame");
    assert_eq!(error.code(), ErrorCode::Capture(CaptureErrorKind::Timeout));
    assert!(reader
        .latest_frame(before_streaming(WorkerPhase::Streaming, 0))
        .unwrap()
        .is_none());
}

#[test]
fn a_replacement_for_a_wedged_camera_does_not_restart_as_a_warm_up() {
    let replacement = CaptureReader::new("uid:desk", 20 * SECOND, 30 * SECOND);
    let error = replacement
        .latest_frame(before_streaming(WorkerPhase::AwaitingLease, 0))
        .expect_err("a retry blocked by a wedged worker must not read as a warm-up");
    assert_eq!(error.code(), ErrorCode::Capture(CaptureErrorKind::Timeout));
    assert!(error.diagnostic_message().contains("still held by an earlier capture"));

    // Acquiring the lease means the earlier open returned.
    assert!(replacement
        .latest_frame(before_streaming(WorkerPhase::Opening, 0))
        .unwrap()
        .is_none());
    assert_eq!(replacement.stall_age(&before_streaming(WorkerPhase::Opening, 0)), 0);
}

#[test]
fn a_lease_wait_adds_the_inherited_stall_and_saturates() {
    let reader = CaptureReader::new("uid:desk", 20 * SECOND, 30 * SECOND);
    assert_eq!(reader.pre_frame_elapsed(WorkerPhase::AwaitingLease, SECOND), 31 * SECOND);
    assert_eq!(reader.pre_frame_elapsed(WorkerPhase::Opening, SECOND), SECOND);
    assert_eq!(reader.pre_frame_elapsed(WorkerPhase::AwaitingLease, u64::MAX), u64::MAX);
    assert_eq!(
        reader.stall_age(&before_streaming(WorkerPhase::AwaitingLease, 0)),
        30 * SECOND
    );
}
