use vstd::prelude::*;

verus! {

/// What a bounded channel does when its consumer falls behind.
#[derive(Debug, Clone, Copy, PartialEq, Eq)]
pub enum SlowConsumerPolicy {
    KeepLatest,
    DropOldest,
    Disconnect,
    BlockUntilDeadline,
    DegradeQuality,
}

/// The declared capacity and overflow policy of one runtime channel.
#[derive(Debug, Clone, Copy, PartialEq, Eq)]
pub struct ChannelBackpressureContract {
    pub channel: &'static str,
    pub policy: SlowConsumerPolicy,
    pub capacity: usize,
}

impl ChannelBackpressureContract {
    /// A contract is valid when its channel is bounded by a non-zero capacity.
    pub fn validate(self) -> (valid: bool)
        ensures
            valid == (self.capacity > 0),
    {
        self.capacity > 0
    }
}

fn contract(channel: &'static str, policy: SlowConsumerPolicy, capacity: usize) -> (c:
    ChannelBackpressureContract)
    ensures
        c.channel == channel,
        c.policy == policy,
        c.capacity == capacity,
{
    ChannelBackpressureContract { channel, policy, capacity }
}

/// UI to render worker: one pending request, newest wins.
pub fn render_requests() -> (c: ChannelBackpressureContract)
    ensures
        c.channel@ == "ui_to_render_worker"@,
        c.policy == SlowConsumerPolicy::KeepLatest,
        c.capacity == 1,
{
    contract("ui_to_render_worker", SlowConsumerPolicy::KeepLatest, 1)
}

/// App to virtual camera extension: three shared frame slots, newest wins.
pub fn shared_frame_slots() -> (c: ChannelBackpressureContract)
    ensures
        c.channel@ == "app_to_cmio_extension"@,
        c.policy == SlowConsumerPolicy::KeepLatest,
        c.capacity == 3,
{
    contract("app_to_cmio_extension", SlowConsumerPolicy::KeepLatest, 3)
}

/// Camera discovery to UI: one result, a slow consumer disconnects.
pub fn camera_discovery_results() -> (c: ChannelBackpressureContract)
    ensures
        c.channel@ == "camera_discovery_to_ui"@,
        c.policy == SlowConsumerPolicy::Disconnect,
        c.capacity == 1,
{
    contract("camera_discovery_to_ui", SlowConsumerPolicy::Disconnect, 1)
}

/// Capture worker to UI: one latest-frame slot, newest write wins.
pub fn capture_results() -> (c: ChannelBackpressureContract)
    ensures
        c.channel@ == "camera_capture_to_ui"@,
        c.policy == SlowConsumerPolicy::KeepLatest,
        c.capacity == 1,
{
    contract("camera_capture_to_ui", SlowConsumerPolicy::KeepLatest, 1)
}

/// File I/O worker to UI: one result, a slow consumer disconnects.
pub fn io_results() -> (c: ChannelBackpressureContract)
    ensures
        c.channel@ == "file_io_to_ui"@,
        c.policy == SlowConsumerPolicy::Disconnect,
        c.capacity == 1,
{
    contract("file_io_to_ui", SlowConsumerPolicy::Disconnect, 1)
}

/// Every runtime channel of the application, each with a bounded capacity
/// and an explicit slow-consumer policy.
pub fn local_channels() -> (channels: [ChannelBackpressureContract; 5])
    ensures
        forall|i: int| 0 <= i < 5 ==> (#[trigger] channels@[i]).capacity > 0,
{
    [render_requests(), shared_frame_slots(), camera_discovery_results(), capture_results(), io_results()]
}

} // verus!
