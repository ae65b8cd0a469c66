use camera_man::frame::{CapturedFrame, Frame, FrameMetadata, PixelFormat};
use camera_man::media_time::{CaptureTimestamps, MonotonicTimestampNanos, WallTimestampNanos};
use camera_man::source_frames::{
    prepare_sources, LastGoodFrames, MissingSourcePolicy, FREEZE_BRIEFLY_FOR_NANOS,
    SOURCE_STALE_AFTER_NANOS,
};

const SECOND: u64 = 1_000_000_000;

fn captured(id: &str, sequence: u64, at: u64) -> CapturedFrame {
    let frame = Frame::solid_bgra(2, 2, [sequence as u8, 0, 0, 255], None, None).unwrap();
    let timestamps = CaptureTimestamps {
        monotonic: MonotonicTimestampNanos(at),
        wall: WallTimestampNanos(at),
    };
    CapturedFrame::new(frame, FrameMetadata::with_timestamps(id, sequence, timestamps))
}

fn ids(names: &[&str]) -> Vec<String> {
    names.iter().map(|name| String::from(*name)).collect()
}

fn sequences(frames: &[Option<CapturedFrame>]) -> Vec<Option<u64>> {
    frames
        .iter()
        .map(|frame| frame.as_ref().map(|f| f.metadata().sequence))
        .collect()
}

#[test]
fn fresh_frames_pass_and_stale_ones_become_placeholders() {
    let mut cache = LastGoodFrames::new();
    let now = 100 * SECOND;
    let prepared = prepare_sources(
        &mut cache,
        MissingSourcePolicy::Placeholder,
        &ids(&["desk", "room", "wide"]),
        vec![
            Some(captured("desk", 1, now - SECOND)),
            Some(captured("room", 2, now - 3 * SECOND)),
            None,
        ],
        now,
    );
    assert_eq!(sequences(&prepared.frames), vec![Some(1), None, None]);
    assert_eq!(prepared.sources, vec![0, 1, 2]);
    assert_eq!(prepared.missing, 2);
    assert!(!prepared.suppress_output);
    assert_eq!(cache.len(), 1);
    assert!(cache.get("desk").is_some());
}

#[test]
fn hidden_cells_are_left_out_of_the_composite() {
    let mut cache = LastGoodFrames::new();
    let now = 10 * SECOND;
    let prepared = prepare_sources(
        &mut cache,
        MissingSourcePolicy::HideCell,
        &ids(&["desk", "room"]),
        vec![None, Some(captured("room", 4, now))],
        now,
    );
    assert_eq!(sequences(&prepared.frames), vec![Some(4)]);
    assert_eq!(prepared.sources, vec![1]);
    assert_eq!(prepared.missing, 1);
}

#[test]
fn stop_output_withholds_the_frame_while_any_source_is_missing() {
    let mut cache = LastGoodFrames::new();
    let now = 10 * SECOND;
    let missing = prepare_sources(
        &mut cache,
        MissingSourcePolicy::StopOutput,
        &ids(&["desk", "room"]),
        vec![Some(captured("desk", 1, now)), None],
        now,
    );
    assert!(missing.suppress_output);
    let complete = prepare_sources(
        &mut cache,
        MissingSourcePolicy::StopOutput,
        &ids(&["desk", "room"]),
        vec![Some(captured("desk", 2, now)), Some(captured("room", 3, now))],
        now,
    );
    assert!(!complete.suppress_output);
    assert_eq!(complete.missing, 0);
}

#[test]
fn freeze_briefly_bridges_a_short_dropout_only() {
    let mut cache = LastGoodFrames::new();
    let start = 50 * SECOND;
    prepare_sources(
        &mut cache,
        MissingSourcePolicy::FreezeBriefly,
        &ids(&["desk"]),
        vec![Some(captured("desk", 9, start))],
        start,
    );
    let bridged = prepare_sources(
        &mut cache,
        MissingSourcePolicy::FreezeBriefly,
        &ids(&["desk"]),
        vec![None],
        start + FREEZE_BRIEFLY_FOR_NANOS,
    );
    assert_eq!(sequences(&bridged.frames), vec![Some(9)]);
    assert_eq!(bridged.missing, 1);
    let expired = prepare_sources(
        &mut cache,
        MissingSourcePolicy::FreezeBriefly,
        &ids(&["desk"]),
        vec![None],
        start + FREEZE_BRIEFLY_FOR_NANOS + 1,
    );
    assert_eq!(sequences(&expired.frames), vec![None]);
}

#[test]
fn remembered_frames_are_forgotten_after_the_stale_limit() {
    let mut cache = LastGoodFrames::new();
    let start = 5 * SECOND;
    prepare_sources(
        &mut cache,
        MissingSourcePolicy::Placeholder,
        &ids(&["desk"]),
        vec![Some(captured("desk", 1, start))],
        start,
    );
    prepare_sources(
        &mut cache,
        MissingSourcePolicy::Placeholder,
        &ids(&["room"]),
        vec![None],
        start + SOURCE_STALE_AFTER_NANOS,
    );
    assert_eq!(cache.len(), 1);
    prepare_sources(
        &mut cache,
        MissingSourcePolicy::Placeholder,
        &ids(&["room"]),
        vec![None],
        start + SOURCE_STALE_AFTER_NANOS + 1,
    );
    assert_eq!(cache.len(), 0);
}

#[test]
fn ids_and_frames_pair_up_only_as_far_as_both_go() {
    let mut cache = LastGoodFrames::new();
    let now = 3 * SECOND;
    let prepared = prepare_sources(
        &mut cache,
        MissingSourcePolicy::Placeholder,
        &ids(&["desk", "room", "wide"]),
        vec![Some(captured("desk", 1, now))],
        now,
    );
    assert_eq!(prepared.sources, vec![0]);
    assert_eq!(prepared.missing, 0);
}
