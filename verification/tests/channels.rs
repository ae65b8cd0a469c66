use camera_man::backpressure::{
    local_channels, render_requests, shared_frame_slots, ChannelBackpressureContract,
    SlowConsumerPolicy,
};
use camera_man::camera::{FrameSource, SyntheticFrameSource};
use camera_man::frame::default_frame_limits;

#[test]
fn every_runtime_channel_has_a_bounded_explicit_policy() {
    assert!(local_channels()
        .into_iter()
        .all(ChannelBackpressureContract::validate));
    assert_eq!(render_requests().policy, SlowConsumerPolicy::KeepLatest);
    assert_eq!(shared_frame_slots().capacity, 3);
}

#[test]
fn a_source_without_device_state_stays_a_plain_frame_source() {
    let mut source = SyntheticFrameSource::new(2, 2, [255, 0, 0, 255], default_frame_limits(None, None));
    assert!(source.latest_frame().unwrap().is_some());
}
