use camera_man::config::{VIRTUAL_CAMERA_DEFAULT_FPS, VIRTUAL_CAMERA_MAX_FPS, VIRTUAL_CAMERA_MIN_FPS};
use camera_man::frame::PixelFormat;
use camera_man::frame_integrity::FrameDiscontinuity;
use camera_man::output_stream::{
    advertised_frame_duration_range, classify_discontinuity, cmio_discontinuity,
    frame_is_stale_at, normalized_transport_fps, sample_timescale, stale_timeout_nanos,
    FrameSnapshot,
};

fn transport_frame(generation: u64, sequence: u64, monotonic_timestamp_nanos: u64) -> FrameSnapshot {
    FrameSnapshot {
        width: 2,
        height: 2,
        pixel_format: PixelFormat::Bgra8,
        sequence,
        generation,
        monotonic_timestamp_nanos,
        fps: 30,
    }
}

#[test]
fn transport_fps_stays_inside_the_advertised_range() {
    assert_eq!(normalized_transport_fps(None), VIRTUAL_CAMERA_DEFAULT_FPS);
    assert_eq!(normalized_transport_fps(Some(1)), VIRTUAL_CAMERA_MIN_FPS);
    assert_eq!(normalized_transport_fps(Some(24)), 24);
    assert_eq!(normalized_transport_fps(Some(120)), VIRTUAL_CAMERA_MAX_FPS);
}

#[test]
fn advertised_duration_range_is_reciprocal_of_fps_bounds() {
    let (max_duration, min_duration) = advertised_frame_duration_range();
    assert_eq!(max_duration, (1, VIRTUAL_CAMERA_MIN_FPS as i32));
    assert_eq!(min_duration, (1, VIRTUAL_CAMERA_MAX_FPS as i32));
}

#[test]
fn sample_timescale_never_reaches_core_media_as_zero_or_wrapped() {
    assert_eq!(sample_timescale(0), 1);
    assert_eq!(sample_timescale(60), 60);
    assert_eq!(sample_timescale(u32::MAX), i32::MAX);
}

#[test]
fn transport_restart_and_sequence_gap_are_distinct_discontinuities() {
    let first = transport_frame(10, 4, 100);
    let restarted = transport_frame(11, 0, 200);
    let dropped = transport_frame(10, 7, 200);

    assert_eq!(
        classify_discontinuity(Some(&first), &restarted, false),
        FrameDiscontinuity::WriterRestarted
    );
    assert_eq!(
        classify_discontinuity(Some(&first), &dropped, false),
        FrameDiscontinuity::FramesDropped
    );
}

#[test]
fn stale_threshold_allows_at_least_five_frame_periods() {
    assert_eq!(stale_timeout_nanos(60), 500_000_000);
    assert_eq!(stale_timeout_nanos(1), 5_000_000_000);
}

#[test]
fn restart_maps_to_time_and_drop_flags() {
    let flags = cmio_discontinuity(FrameDiscontinuity::WriterRestarted, 0, false);
    assert!(flags.time);
    assert!(flags.sample_dropped);
}

#[test]
fn clock_reset_maps_to_time_and_drop_flags() {
    let flags = cmio_discontinuity(FrameDiscontinuity::Continuous, 0, true);
    assert!(flags.time);
    assert!(flags.sample_dropped);
}

#[test]
fn skipped_deadlines_and_format_changes_have_their_own_flags() {
    let late = cmio_discontinuity(FrameDiscontinuity::Continuous, 2, false);
    assert!(!late.time && late.sample_dropped && !late.unknown);
    let format = cmio_discontinuity(FrameDiscontinuity::FormatChanged, 0, false);
    assert!(!format.time && !format.sample_dropped && format.unknown);
    let quiet = cmio_discontinuity(FrameDiscontinuity::Continuous, 0, false);
    assert!(!quiet.time && !quiet.sample_dropped && !quiet.unknown);
}

#[test]
fn a_frame_is_stale_only_after_the_threshold() {
    let frame = transport_frame(1, 1, 1_000);
    assert!(!frame_is_stale_at(&frame, 1_000 + 500_000_000));
    assert!(frame_is_stale_at(&frame, 1_000 + 500_000_001));
    assert!(!frame_is_stale_at(&frame, 0));
}
