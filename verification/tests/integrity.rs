use camera_man::frame::PixelFormat;
use camera_man::frame_integrity::{
    classify_frame_integrity, FrameDiscontinuity, FrameIntegrityState, FrameObservation,
};

fn observation(generation: u64, sequence: u64, timestamp: u64) -> FrameObservation {
    FrameObservation {
        width: 1_920,
        height: 1_080,
        pixel_format: PixelFormat::Bgra8,
        generation,
        sequence,
        monotonic_timestamp_nanos: timestamp,
    }
}

#[test]
fn one_state_links_restart_sequence_timing_stale_and_drop_reason() {
    let mut state = FrameIntegrityState::new("camera-1");
    assert_eq!(
        state.observe(observation(1, 4, 100)),
        FrameDiscontinuity::Continuous
    );
    assert_eq!(
        state.observe(observation(1, 7, 200)),
        FrameDiscontinuity::FramesDropped
    );
    assert_eq!(state.mark_stale(), FrameDiscontinuity::BecameStale);
    assert_eq!(
        state.observe(observation(2, 0, 300)),
        FrameDiscontinuity::WriterRestarted
    );

    let snapshot = state.snapshot();
    assert_eq!(snapshot.source_id, "camera-1");
    assert_eq!(snapshot.writer_restarts, 1);
    assert_eq!(snapshot.inferred_dropped_frames, 3);
    assert_eq!(snapshot.last_observation.unwrap().generation, 2);
}

#[test]
fn same_generation_timestamp_regression_is_not_a_restart() {
    let previous = observation(7, 10, 200);
    let current = observation(7, 11, 100);
    assert_eq!(
        classify_frame_integrity(Some(&previous), &current, false),
        FrameDiscontinuity::TimingReset
    );
}
