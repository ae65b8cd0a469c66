use camera_man::frame::PixelFormat;
use camera_man::frame_integrity::{FrameDiscontinuity, IntegrityDropReason};
use camera_man::frame_pump::{LatestFrameReader, TransportPoll};
use camera_man::output_stream::FrameSnapshot;

const MILLI: u64 = 1_000_000;

fn snapshot(sequence: u64, at: u64, fps: u32) -> FrameSnapshot {
    FrameSnapshot {
        width: 1920,
        height: 1080,
        pixel_format: PixelFormat::Bgra8,
        sequence,
        generation: 1,
        monotonic_timestamp_nanos: at,
        fps,
    }
}

#[test]
fn a_new_frame_is_kept_with_its_buffer_and_rate() {
    let mut reader: LatestFrameReader<u32> = LatestFrameReader::new("virtual-camera-output");
    let tick = reader.poll(TransportPoll::Frame(snapshot(1, 1_000 * MILLI, 24), Some(7)), 1_000 * MILLI);
    assert_eq!(tick.fps, 24);
    assert_eq!(tick.discontinuity, FrameDiscontinuity::Continuous);
    assert_eq!(reader.pixel_buffer(), Some(&7));
    assert!(tick.new_error.is_none());
}

#[test]
fn without_a_frame_the_default_rate_is_reported() {
    let mut reader: LatestFrameReader<u32> = LatestFrameReader::new("virtual-camera-output");
    let tick = reader.poll(TransportPoll::Empty, 0);
    assert_eq!(tick.fps, 30);
    assert_eq!(reader.pixel_buffer(), None);
}

#[test]
fn a_frame_without_a_buffer_counts_as_a_backpressure_drop() {
    let mut reader: LatestFrameReader<u32> = LatestFrameReader::new("virtual-camera-output");
    reader.poll(TransportPoll::Frame(snapshot(1, 0, 30), Some(1)), 0);
    let tick = reader.poll(TransportPoll::Frame(snapshot(2, 10 * MILLI, 30), None), 10 * MILLI);
    assert_eq!(tick.discontinuity, FrameDiscontinuity::FramesDropped);
    assert_eq!(reader.pixel_buffer(), Some(&1));
    let history = reader.integrity().snapshot();
    assert_eq!(history.last_drop_reason, Some(IntegrityDropReason::ConsumerBackpressure));
    assert_eq!(history.inferred_dropped_frames, 1);
}

#[test]
fn a_repeated_read_failure_is_reported_once() {
    let mut reader: LatestFrameReader<u32> = LatestFrameReader::new("virtual-camera-output");
    let first = reader.poll(TransportPoll::Failed(String::from("header invalid")), 0);
    assert_eq!(first.new_error, Some(String::from("header invalid")));
    let second = reader.poll(TransportPoll::Failed(String::from("header invalid")), 0);
    assert_eq!(second.new_error, None);
    assert_eq!(reader.integrity().snapshot().inferred_dropped_frames, 1);
    let other = reader.poll(TransportPoll::Failed(String::from("torn read")), 0);
    assert_eq!(other.new_error, Some(String::from("torn read")));
}

#[test]
fn a_stale_frame_is_dropped_once_and_a_new_frame_resumes() {
    let mut reader: LatestFrameReader<u32> = LatestFrameReader::new("virtual-camera-output");
    reader.poll(TransportPoll::Frame(snapshot(1, 0, 30), Some(1)), 0);
    let stale = reader.poll(TransportPoll::Empty, 5_000 * MILLI);
    assert_eq!(stale.discontinuity, FrameDiscontinuity::BecameStale);
    assert!(stale.became_stale);
    assert_eq!(reader.pixel_buffer(), None);
    let quiet = reader.poll(TransportPoll::Empty, 6_000 * MILLI);
    assert_eq!(quiet.discontinuity, FrameDiscontinuity::Continuous);
    assert!(!quiet.became_stale);
    let resumed = reader.poll(TransportPoll::Frame(snapshot(2, 6_000 * MILLI, 30), Some(2)), 6_000 * MILLI);
    assert_eq!(resumed.discontinuity, FrameDiscontinuity::Resumed);
    assert_eq!(reader.pixel_buffer(), Some(&2));
}
