//! Decisions of the virtual camera's sample pump: the cadence it reports,
//! when the last transport frame counts as stale, and which discontinuity
//! flags accompany a sample.
use vstd::prelude::*;

use crate::config::{VIRTUAL_CAMERA_DEFAULT_FPS, VIRTUAL_CAMERA_MAX_FPS, VIRTUAL_CAMERA_MIN_FPS};
use crate::frame::PixelFormat;
use crate::frame_integrity::{
    classify_frame_integrity, integrity_of, FrameDiscontinuity, FrameObservation,
};
use crate::media_time::monotonic_time_nanos;

verus! {

/// The shortest time without a new frame that counts as stale.
pub const MINIMUM_STALE_NANOS: u64 = 500_000_000;

/// The producer's rate, or the default before the first frame, clamped to the
/// range the device advertises.
pub open spec fn normalized_fps(fps: Option<u32>) -> u32 {
    let f = match fps {
        Some(f) => f,
        None => VIRTUAL_CAMERA_DEFAULT_FPS,
    };
    if f < VIRTUAL_CAMERA_MIN_FPS {
        VIRTUAL_CAMERA_MIN_FPS
    } else if f > VIRTUAL_CAMERA_MAX_FPS {
        VIRTUAL_CAMERA_MAX_FPS
    } else {
        f
    }
}

/// The frame rate samples are timed at.
pub fn normalized_transport_fps(fps: Option<u32>) -> (f: u32)
    ensures
        f == normalized_fps(fps),
        VIRTUAL_CAMERA_MIN_FPS <= f <= VIRTUAL_CAMERA_MAX_FPS,
{
    let f = match fps {
        Some(f) => f,
        None => VIRTUAL_CAMERA_DEFAULT_FPS,
    };
    if f < VIRTUAL_CAMERA_MIN_FPS {
        VIRTUAL_CAMERA_MIN_FPS
    } else if f > VIRTUAL_CAMERA_MAX_FPS {
        VIRTUAL_CAMERA_MAX_FPS
    } else {
        f
    }
}

/// A sample timescale: the rate clamped to `1..=i32::MAX`, never zero and
/// never wrapped negative.
pub fn sample_timescale(fps: u32) -> (t: i32)
    ensures
        t == (if fps < 1 {
            1
        } else if fps > i32::MAX {
            i32::MAX as int
        } else {
            fps as int
        }),
        t >= 1,
{
    if fps < 1 {
        1
    } else if fps > i32::MAX as u32 {
        i32::MAX
    } else {
        fps as i32
    }
}

/// The staleness threshold at `fps`: five frame periods, but at least
/// half a second.
pub open spec fn stale_timeout(fps: u32) -> u64 {
    let interval: int = 1_000_000_000int / (if fps < 1 {
        1int
    } else {
        fps as int
    });
    if 5 * interval > MINIMUM_STALE_NANOS {
        (5 * interval) as u64
    } else {
        MINIMUM_STALE_NANOS
    }
}

/// How long the last frame may age before the output treats it as stale.
pub fn stale_timeout_nanos(fps: u32) -> (t: u64)
    ensures
        t == stale_timeout(fps),
        t >= MINIMUM_STALE_NANOS,
{
    let divisor: u64 = if fps < 1 {
        1
    } else {
        fps as u64
    };
    let frame_interval = 1_000_000_000u64 / divisor;
    let five = frame_interval * 5;
    if five > MINIMUM_STALE_NANOS {
        five
    } else {
        MINIMUM_STALE_NANOS
    }
}

/// The longest and shortest frame durations the device advertises, as
/// `(value, timescale)` pairs: one frame at the lowest and at the highest
/// supported rate.
pub fn advertised_frame_duration_range() -> (r: ((i64, i32), (i64, i32)))
    ensures
        r == ((1i64, VIRTUAL_CAMERA_MIN_FPS as i32), (1i64, VIRTUAL_CAMERA_MAX_FPS as i32)),
{
    ((1, VIRTUAL_CAMERA_MIN_FPS as i32), (1, VIRTUAL_CAMERA_MAX_FPS as i32))
}

/// What the pump remembers of a transport frame.
#[derive(Debug, Clone, Copy, PartialEq, Eq, Structural)]
pub struct FrameSnapshot {
    pub width: u32,
    pub height: u32,
    pub pixel_format: PixelFormat,
    pub sequence: u64,
    pub generation: u64,
    pub monotonic_timestamp_nanos: u64,
    pub fps: u32,
}

/// The integrity observation of a snapshot.
pub open spec fn observation_of(frame: FrameSnapshot) -> FrameObservation {
    FrameObservation {
        width: frame.width,
        height: frame.height,
        pixel_format: frame.pixel_format,
        generation: frame.generation,
        sequence: frame.sequence,
        monotonic_timestamp_nanos: frame.monotonic_timestamp_nanos,
    }
}

impl FrameSnapshot {
    /// The fields frame integrity is judged on.
    pub fn observation(self) -> (o: FrameObservation)
        ensures
            o == observation_of(self),
    {
        FrameObservation {
            width: self.width,
            height: self.height,
            pixel_format: self.pixel_format,
            generation: self.generation,
            sequence: self.sequence,
            monotonic_timestamp_nanos: self.monotonic_timestamp_nanos,
        }
    }
}

/// How `current` follows `previous` on the transport.
pub fn classify_discontinuity(
    previous: Option<&FrameSnapshot>,
    current: &FrameSnapshot,
    was_stale: bool,
) -> (d: FrameDiscontinuity)
    ensures
        d == integrity_of(
            match previous {
                Some(p) => Some(observation_of(*p)),
                None => None,
            },
            observation_of(*current),
            was_stale,
        ),
{
    let current_observation = current.observation();
    match previous {
        Some(p) => {
            let previous_observation = p.observation();
            classify_frame_integrity(Some(&previous_observation), &current_observation, was_stale)
        },
        None => classify_frame_integrity(None, &current_observation, was_stale),
    }
}

/// A frame captured at `timestamp` is stale at `now` once its age exceeds
/// the threshold for its rate; a timestamp from the future has age zero.
pub open spec fn stale_at(frame: FrameSnapshot, now: u64) -> bool {
    (if now >= frame.monotonic_timestamp_nanos {
        now - frame.monotonic_timestamp_nanos
    } else {
        0
    }) > stale_timeout(frame.fps)
}

/// Whether `frame` is stale at monotonic time `now_nanos`.
pub fn frame_is_stale_at(frame: &FrameSnapshot, now_nanos: u64) -> (b: bool)
    ensures
        b == stale_at(*frame, now_nanos),
{
    let age = now_nanos.saturating_sub(frame.monotonic_timestamp_nanos);
    age > stale_timeout_nanos(frame.fps)
}

/// Whether `frame` is stale now: stale at the clock reading the call takes;
/// see [`frame_is_stale_at`].
pub fn frame_is_stale(frame: &FrameSnapshot) -> (b: bool)
    ensures
        exists|now: u64| b == #[trigger] stale_at(*frame, now),
{
    let now = monotonic_time_nanos();
    let b = frame_is_stale_at(frame, now);
    assert(b == stale_at(*frame, now));
    b
}

/// The discontinuity flags of a sample, as CoreMediaIO defines them.
#[derive(Debug, Clone, Copy, PartialEq, Eq, Structural)]
pub struct DiscontinuityFlags {
    pub time: bool,
    pub sample_dropped: bool,
    pub unknown: bool,
}

/// The flags a sample carries after a frame discontinuity, skipped
/// deadlines and a clock jump.
pub open spec fn discontinuity_flags(
    frame: FrameDiscontinuity,
    skipped_deadlines: u64,
    clock_discontinuity: bool,
) -> DiscontinuityFlags {
    let restart_like = frame is WriterRestarted || frame is TimingReset || frame is BecameStale
        || frame is Resumed;
    DiscontinuityFlags {
        time: restart_like || clock_discontinuity,
        sample_dropped: restart_like || frame is FramesDropped || skipped_deadlines > 0
            || clock_discontinuity,
        unknown: frame is FormatChanged,
    }
}

/// Maps what happened to the output into sample discontinuity flags.
pub fn cmio_discontinuity(
    frame: FrameDiscontinuity,
    skipped_deadlines: u64,
    clock_discontinuity: bool,
) -> (flags: DiscontinuityFlags)
    ensures
        flags == discontinuity_flags(frame, skipped_deadlines, clock_discontinuity),
{
    let mut flags = match frame {
        FrameDiscontinuity::Continuous => DiscontinuityFlags {
            time: false,
            sample_dropped: false,
            unknown: false,
        },
        FrameDiscontinuity::FramesDropped => DiscontinuityFlags {
            time: false,
            sample_dropped: true,
            unknown: false,
        },
        FrameDiscontinuity::FormatChanged => DiscontinuityFlags {
            time: false,
            sample_dropped: false,
            unknown: true,
        },
        FrameDiscontinuity::WriterRestarted
        | FrameDiscontinuity::TimingReset
        | FrameDiscontinuity::BecameStale
        | FrameDiscontinuity::Resumed => DiscontinuityFlags {
            time: true,
            sample_dropped: true,
            unknown: false,
        },
    };
    if skipped_deadlines > 0 {
        flags.sample_dropped = true;
    }
    if clock_discontinuity {
        flags.time = true;
        flags.sample_dropped = true;
    }
    flags
}

/// The stale threshold is never shorter than five frame periods nor than
/// half a second.
pub proof fn law_stale_threshold_covers_five_periods(fps: u32)
    requires
        fps >= 1,
    ensures
        stale_timeout(fps) >= 5 * (1_000_000_000int / (fps as int)),
        stale_timeout(fps) >= MINIMUM_STALE_NANOS,
{
}

/// Any sample after a discontinuity, a skipped deadline or a clock jump is
/// flagged; a continuous, on-time sample carries no flag.
pub proof fn law_flags_are_empty_only_for_continuous_samples(
    frame: FrameDiscontinuity,
    skipped_deadlines: u64,
    clock_discontinuity: bool,
)
    ensures
        discontinuity_flags(frame, skipped_deadlines, clock_discontinuity) == (DiscontinuityFlags {
            time: false,
            sample_dropped: false,
            unknown: false,
        }) <==> (frame is Continuous && skipped_deadlines == 0 && !clock_discontinuity),
{
}

/// Dropped frames always tell the consumer that samples were dropped; with
/// no skipped deadline and no clock jump they are reported as nothing else.
pub proof fn law_dropped_frames_flag_sample_dropped(skipped_deadlines: u64, clock_discontinuity: bool)
    ensures
        discontinuity_flags(
            FrameDiscontinuity::FramesDropped,
            skipped_deadlines,
            clock_discontinuity,
        ).sample_dropped,
        !discontinuity_flags(
            FrameDiscontinuity::FramesDropped,
            skipped_deadlines,
            clock_discontinuity,
        ).unknown,
        discontinuity_flags(FrameDiscontinuity::FramesDropped, 0, false) == (DiscontinuityFlags {
            time: false,
            sample_dropped: true,
            unknown: false,
        }),
{
}

/// What each flag means: a time discontinuity exactly for a restart, a
/// timing reset, staleness, a resume or a clock jump; dropped samples for
/// any discontinuity but a format change or a continuous frame, and for
/// skipped deadlines or a clock jump; an unknown discontinuity exactly for a
/// format change.
pub proof fn law_flag_meanings(
    frame: FrameDiscontinuity,
    skipped_deadlines: u64,
    clock_discontinuity: bool,
)
    ensures
        ({
            let f = discontinuity_flags(frame, skipped_deadlines, clock_discontinuity);
            &&& f.time <==> (frame == FrameDiscontinuity::WriterRestarted || frame
                == FrameDiscontinuity::TimingReset || frame == FrameDiscontinuity::BecameStale
                || frame == FrameDiscontinuity::Resumed || clock_discontinuity)
            &&& f.sample_dropped <==> ((frame != FrameDiscontinuity::Continuous && frame
                != FrameDiscontinuity::FormatChanged) || skipped_deadlines > 0
                || clock_discontinuity)
            &&& f.unknown <==> frame == FrameDiscontinuity::FormatChanged
        }),
{
}

} // verus!
