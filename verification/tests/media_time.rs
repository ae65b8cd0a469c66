use camera_man::media_time::{saturated_epoch_nanos, wall_time_nanos, CaptureTimestamps};

#[test]
fn epoch_readings_saturate_to_sixty_four_bits() {
    assert_eq!(saturated_epoch_nanos(Some(1_234)), 1_234);
    assert_eq!(saturated_epoch_nanos(Some(u128::from(u64::MAX))), u64::MAX);
    assert_eq!(saturated_epoch_nanos(Some(u128::from(u64::MAX) + 1)), u64::MAX);
    assert_eq!(saturated_epoch_nanos(None), 0);
}

#[test]
fn capture_timestamps_read_one_clock() {
    let timestamps = CaptureTimestamps::now();
    assert_eq!(timestamps.monotonic.0, timestamps.wall.0);
    assert!(wall_time_nanos() >= timestamps.wall.0);
}
