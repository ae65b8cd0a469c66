//! Capture timestamps carried in frame metadata.
use vstd::prelude::*;

verus! {

/// Nanoseconds on the steady clock that frame ages are measured against.
#[derive(Debug, Clone, Copy, PartialEq, Eq, Hash, PartialOrd, Ord)]
pub struct MonotonicTimestampNanos(pub u64);

/// Nanoseconds since the Unix epoch.
#[derive(Debug, Clone, Copy, PartialEq, Eq, Hash, PartialOrd, Ord)]
pub struct WallTimestampNanos(pub u64);

/// Both clocks read for one capture.
#[derive(Debug, Clone, Copy, PartialEq, Eq, Hash)]
pub struct CaptureTimestamps {
    pub monotonic: MonotonicTimestampNanos,
    pub wall: WallTimestampNanos,
}

/// A reading of the system clock.
#[verifier::external_type_specification]
#[verifier::external_body]
pub struct ExSystemTime(std::time::SystemTime);

/// `SystemTime::now`: the current system clock reading. It depends on the
/// time of the call, so nothing is stated of it.
#[verifier::external_body]
fn system_now() -> std::time::SystemTime {
    std::time::SystemTime::now()
}

/// `SystemTime::duration_since(UNIX_EPOCH)`: the time elapsed since the Unix
/// epoch, or `None` for a reading before it.
#[verifier::external_body]
fn since_unix_epoch(time: std::time::SystemTime) -> Option<std::time::Duration> {
    time.duration_since(std::time::UNIX_EPOCH).ok()
}

/// `Duration::as_nanos`: whole nanoseconds of a duration.
#[verifier::external_body]
fn duration_nanos(duration: std::time::Duration) -> u128 {
    duration.as_nanos()
}

/// A clock reading in nanoseconds since the Unix epoch, saturated to 64 bits;
/// `0` for a reading before the epoch.
pub open spec fn saturated(elapsed: Option<u128>) -> u64 {
    match elapsed {
        Some(x) => if x > u64::MAX as u128 { u64::MAX } else { x as u64 },
        None => 0,
    }
}

/// Saturates the nanoseconds elapsed since the Unix epoch to 64 bits, with a
/// reading before the epoch (`None`) mapped to `0`.
pub fn saturated_epoch_nanos(elapsed: Option<u128>) -> (n: u64)
    ensures
        n == saturated(elapsed),
{
    match elapsed {
        Some(nanos) => if nanos > u64::MAX as u128 {
            u64::MAX
        } else {
            nanos as u64
        },
        None => 0,
    }
}

/// Nanoseconds since the Unix epoch, saturated to 64 bits; `0` for a clock
/// reading before the epoch. Which reading that is depends on the time of
/// the call.
pub fn wall_time_nanos() -> (n: u64)
    ensures
        exists|elapsed: Option<u128>| n == #[trigger] saturated(elapsed),
{
    let elapsed = match since_unix_epoch(system_now()) {
        Some(duration) => Some(duration_nanos(duration)),
        None => None,
    };
    let n = saturated_epoch_nanos(elapsed);
    assert(n == saturated(elapsed));
    n
}

/// The clock frame ages are measured on. It reads the same system clock as
/// [`wall_time_nanos`].
pub fn monotonic_time_nanos() -> (n: u64)
    ensures
        exists|elapsed: Option<u128>| n == #[trigger] saturated(elapsed),
{
    wall_time_nanos()
}

impl CaptureTimestamps {
    /// Timestamps read now.
    pub fn now() -> (t: Self)
        ensures
            t.monotonic.0 == t.wall.0,
            exists|elapsed: Option<u128>| t.wall.0 == #[trigger] saturated(elapsed),
    {
        let now = wall_time_nanos();
        CaptureTimestamps { monotonic: MonotonicTimestampNanos(now), wall: WallTimestampNanos(now) }
    }
}

} // verus!
