//! One source's frame history: restarts, sequence gaps, format and timing
//! changes, staleness and the reason of the last drop.
use vstd::prelude::*;

use crate::frame::PixelFormat;
use crate::text::owned;

verus! {

/// Identity, timing and format fields that must advance as one source history.
#[derive(Debug, Clone, Copy, PartialEq, Eq, Structural)]
pub struct FrameObservation {
    pub width: u32,
    pub height: u32,
    pub pixel_format: PixelFormat,
    pub generation: u64,
    pub sequence: u64,
    pub monotonic_timestamp_nanos: u64,
}

/// How a frame relates to the one before it.
#[derive(Debug, Clone, Copy, PartialEq, Eq, Structural)]
pub enum FrameDiscontinuity {
    Continuous,
    WriterRestarted,
    FramesDropped,
    FormatChanged,
    TimingReset,
    BecameStale,
    Resumed,
}

impl Default for FrameDiscontinuity {
    fn default() -> (d: Self)
        ensures
            d == FrameDiscontinuity::Continuous,
    {
        FrameDiscontinuity::Continuous
    }
}

/// Why frames were lost.
#[derive(Debug, Clone, Copy, PartialEq, Eq, Structural)]
pub enum IntegrityDropReason {
    SourceUnavailable,
    DecodeFailed,
    TransportReadFailed,
    Stale,
    ConsumerBackpressure,
}

/// Point-in-time copy of one source's integrity history.
#[derive(Debug, Clone, PartialEq, Eq)]
pub struct FrameIntegritySnapshot {
    pub source_id: String,
    pub last_observation: Option<FrameObservation>,
    pub last_discontinuity: FrameDiscontinuity,
    pub last_drop_reason: Option<IntegrityDropReason>,
    pub inferred_dropped_frames: u64,
    pub writer_restarts: u64,
    pub stale: bool,
}

/// Runtime-owned integrity history for exactly one source.
#[derive(Debug, Clone)]
pub struct FrameIntegrityState {
    source_id: String,
    last_observation: Option<FrameObservation>,
    last_discontinuity: FrameDiscontinuity,
    last_drop_reason: Option<IntegrityDropReason>,
    inferred_dropped_frames: u64,
    writer_restarts: u64,
    stale: bool,
}

/// Mathematical content of a [`FrameIntegrityState`].
pub struct IntegrityModel {
    pub source_id: Seq<char>,
    pub last_observation: Option<FrameObservation>,
    pub last_discontinuity: FrameDiscontinuity,
    pub last_drop_reason: Option<IntegrityDropReason>,
    pub inferred_dropped_frames: u64,
    pub writer_restarts: u64,
    pub stale: bool,
}

impl View for FrameIntegrityState {
    type V = IntegrityModel;

    closed spec fn view(&self) -> IntegrityModel {
        IntegrityModel {
            source_id: self.source_id@,
            last_observation: self.last_observation,
            last_discontinuity: self.last_discontinuity,
            last_drop_reason: self.last_drop_reason,
            inferred_dropped_frames: self.inferred_dropped_frames,
            writer_restarts: self.writer_restarts,
            stale: self.stale,
        }
    }
}

/// `a + b`, saturating at `u64::MAX`.
pub open spec fn saturating_add(a: u64, b: u64) -> u64 {
    if a + b > u64::MAX {
        u64::MAX
    } else {
        (a + b) as u64
    }
}

/// `current - (previous + 1)` in wrapping 64-bit arithmetic: the number of
/// sequence numbers skipped between two frames.
pub open spec fn sequence_gap(previous: u64, current: u64) -> u64 {
    ((current as int - previous as int - 1) % 0x1_0000_0000_0000_0000) as u64
}

/// `previous + 1` in wrapping 64-bit arithmetic.
pub open spec fn next_sequence(previous: u64) -> u64 {
    if previous == u64::MAX {
        0
    } else {
        (previous + 1) as u64
    }
}

/// Classification of a frame against the previous one of the same source.
pub open spec fn integrity_of(
    previous: Option<FrameObservation>,
    current: FrameObservation,
    was_stale: bool,
) -> FrameDiscontinuity {
    match previous {
        None => if was_stale {
            FrameDiscontinuity::Resumed
        } else {
            FrameDiscontinuity::Continuous
        },
        Some(p) => if p.generation != current.generation {
            FrameDiscontinuity::WriterRestarted
        } else if p.width != current.width || p.height != current.height || p.pixel_format
            != current.pixel_format {
            FrameDiscontinuity::FormatChanged
        } else if current.monotonic_timestamp_nanos < p.monotonic_timestamp_nanos {
            FrameDiscontinuity::TimingReset
        } else if current.sequence != next_sequence(p.sequence) {
            FrameDiscontinuity::FramesDropped
        } else if was_stale {
            FrameDiscontinuity::Resumed
        } else {
            FrameDiscontinuity::Continuous
        },
    }
}

/// Frames an observation adds to the inferred drop count: the skipped
/// sequence numbers, at least one, for a sequence gap.
pub open spec fn inferred_drops(
    previous: Option<FrameObservation>,
    current: FrameObservation,
    discontinuity: FrameDiscontinuity,
) -> u64 {
    match previous {
        Some(p) if discontinuity == FrameDiscontinuity::FramesDropped => {
            let gap = sequence_gap(p.sequence, current.sequence);
            if gap > 1 {
                gap
            } else {
                1
            }
        },
        _ => 0,
    }
}

/// The history after observing `current`.
pub open spec fn observed(m: IntegrityModel, current: FrameObservation) -> IntegrityModel {
    let d = integrity_of(m.last_observation, current, m.stale);
    IntegrityModel {
        source_id: m.source_id,
        last_observation: Some(current),
        last_discontinuity: d,
        last_drop_reason: None,
        inferred_dropped_frames: saturating_add(
            m.inferred_dropped_frames,
            inferred_drops(m.last_observation, current, d),
        ),
        writer_restarts: if d == FrameDiscontinuity::WriterRestarted {
            saturating_add(m.writer_restarts, 1)
        } else {
            m.writer_restarts
        },
        stale: false,
    }
}

fn same_pixel_format(a: PixelFormat, b: PixelFormat) -> (eq: bool)
    ensures
        eq == (a == b),
{
    match (a, b) {
        (PixelFormat::Bgra8, PixelFormat::Bgra8) => true,
    }
}

/// Classifies `current` against the previous frame of the same source.
pub fn classify_frame_integrity(
    previous: Option<&FrameObservation>,
    current: &FrameObservation,
    was_stale: bool,
) -> (d: FrameDiscontinuity)
    ensures
        d == integrity_of(
            match previous {
                Some(p) => Some(*p),
                None => None,
            },
            *current,
            was_stale,
        ),
{
    let previous = match previous {
        Some(previous) => previous,
        None => {
            return if was_stale {
                FrameDiscontinuity::Resumed
            } else {
                FrameDiscontinuity::Continuous
            };
        },
    };
    if previous.generation != current.generation {
        return FrameDiscontinuity::WriterRestarted;
    }
    if previous.width != current.width || previous.height != current.height || !same_pixel_format(
        previous.pixel_format,
        current.pixel_format,
    ) {
        return FrameDiscontinuity::FormatChanged;
    }
    if current.monotonic_timestamp_nanos < previous.monotonic_timestamp_nanos {
        return FrameDiscontinuity::TimingReset;
    }
    if current.sequence != previous.sequence.wrapping_add(1) {
        return FrameDiscontinuity::FramesDropped;
    }
    if was_stale {
        return FrameDiscontinuity::Resumed;
    }
    FrameDiscontinuity::Continuous
}

fn same_discontinuity(a: FrameDiscontinuity, b: FrameDiscontinuity) -> (eq: bool)
    ensures
        eq == (a == b),
{
    match (a, b) {
        (FrameDiscontinuity::Continuous, FrameDiscontinuity::Continuous) => true,
        (FrameDiscontinuity::WriterRestarted, FrameDiscontinuity::WriterRestarted) => true,
        (FrameDiscontinuity::FramesDropped, FrameDiscontinuity::FramesDropped) => true,
        (FrameDiscontinuity::FormatChanged, FrameDiscontinuity::FormatChanged) => true,
        (FrameDiscontinuity::TimingReset, FrameDiscontinuity::TimingReset) => true,
        (FrameDiscontinuity::BecameStale, FrameDiscontinuity::BecameStale) => true,
        (FrameDiscontinuity::Resumed, FrameDiscontinuity::Resumed) => true,
        _ => false,
    }
}

impl FrameIntegrityState {
    /// An empty history for `source_id`.
    pub fn new(source_id: &str) -> (s: Self)
        ensures
            s@ == (IntegrityModel {
                source_id: source_id@,
                last_observation: None,
                last_discontinuity: FrameDiscontinuity::Continuous,
                last_drop_reason: None,
                inferred_dropped_frames: 0,
                writer_restarts: 0,
                stale: false,
            }),
    {
        FrameIntegrityState {
            source_id: owned(source_id),
            last_observation: None,
            last_discontinuity: FrameDiscontinuity::Continuous,
            last_drop_reason: None,
            inferred_dropped_frames: 0,
            writer_restarts: 0,
            stale: false,
        }
    }

    /// Records a frame and returns how it relates to the previous one.
    pub fn observe(&mut self, current: FrameObservation) -> (d: FrameDiscontinuity)
        ensures
            d == integrity_of(old(self)@.last_observation, current, old(self)@.stale),
            final(self)@ == observed(old(self)@, current),
    {
        let discontinuity = classify_frame_integrity(
            self.last_observation.as_ref(),
            &current,
            self.stale,
        );
        if same_discontinuity(discontinuity, FrameDiscontinuity::WriterRestarted) {
            self.writer_restarts = self.writer_restarts.saturating_add(1);
        }
        if same_discontinuity(discontinuity, FrameDiscontinuity::FramesDropped) {
            if let Some(previous) = self.last_observation {
                let expected = previous.sequence.wrapping_add(1);
                let gap = current.sequence.wrapping_sub(expected);
                let counted = if gap > 1 {
                    gap
                } else {
                    1
                };
                self.inferred_dropped_frames = self.inferred_dropped_frames.saturating_add(counted);
            }
        }
        self.last_observation = Some(current);
        self.last_discontinuity = discontinuity;
        self.last_drop_reason = None;
        self.stale = false;
        discontinuity
    }

    /// Records `count` lost frames and why they were lost.
    pub fn mark_drop(&mut self, reason: IntegrityDropReason, count: u64)
        ensures
            final(self)@ == (IntegrityModel {
                last_drop_reason: Some(reason),
                inferred_dropped_frames: saturating_add(old(self)@.inferred_dropped_frames, count),
                ..old(self)@
            }),
    {
        self.last_drop_reason = Some(reason);
        self.inferred_dropped_frames = self.inferred_dropped_frames.saturating_add(count);
    }

    /// Records one frame lost to staleness; only the first of a stale run
    /// reports `BecameStale`.
    pub fn mark_stale(&mut self) -> (d: FrameDiscontinuity)
        ensures
            d == if old(self)@.stale {
                FrameDiscontinuity::Continuous
            } else {
                FrameDiscontinuity::BecameStale
            },
            final(self)@ == (IntegrityModel {
                last_drop_reason: Some(IntegrityDropReason::Stale),
                inferred_dropped_frames: saturating_add(old(self)@.inferred_dropped_frames, 1),
                stale: true,
                last_discontinuity: if old(self)@.stale {
                    old(self)@.last_discontinuity
                } else {
                    FrameDiscontinuity::BecameStale
                },
                ..old(self)@
            }),
    {
        self.mark_drop(IntegrityDropReason::Stale, 1);
        if self.stale {
            return FrameDiscontinuity::Continuous;
        }
        self.stale = true;
        self.last_discontinuity = FrameDiscontinuity::BecameStale;
        FrameDiscontinuity::BecameStale
    }

    /// A copy of the history.
    pub fn snapshot(&self) -> (s: FrameIntegritySnapshot)
        ensures
            s.source_id@ == self@.source_id,
            s.last_observation == self@.last_observation,
            s.last_discontinuity == self@.last_discontinuity,
            s.last_drop_reason == self@.last_drop_reason,
            s.inferred_dropped_frames == self@.inferred_dropped_frames,
            s.writer_restarts == self@.writer_restarts,
            s.stale == self@.stale,
    {
        FrameIntegritySnapshot {
            source_id: self.source_id.clone(),
            last_observation: self.last_observation,
            last_discontinuity: self.last_discontinuity,
            last_drop_reason: self.last_drop_reason,
            inferred_dropped_frames: self.inferred_dropped_frames,
            writer_restarts: self.writer_restarts,
            stale: self.stale,
        }
    }
}

// ---------------------------------------------------------------------------
// Laws
// ---------------------------------------------------------------------------

/// A frame is classified as a writer restart exactly when its generation
/// differs from the previous frame's; a timestamp regression within one
/// generation is never a restart.
pub proof fn law_restart_iff_generation_changes(
    previous: FrameObservation,
    current: FrameObservation,
    was_stale: bool,
)
    ensures
        (integrity_of(Some(previous), current, was_stale) == FrameDiscontinuity::WriterRestarted)
            <==> previous.generation != current.generation,
{
}

/// A frame that keeps the generation and format, does not go back in time and
/// carries the next sequence number is continuous, or resumes a stale source.
pub proof fn law_in_order_frame_is_continuous(
    previous: FrameObservation,
    current: FrameObservation,
    was_stale: bool,
)
    requires
        previous.generation == current.generation,
        previous.width == current.width,
        previous.height == current.height,
        previous.pixel_format == current.pixel_format,
        previous.monotonic_timestamp_nanos <= current.monotonic_timestamp_nanos,
        current.sequence == next_sequence(previous.sequence),
    ensures
        integrity_of(Some(previous), current, was_stale) == if was_stale {
            FrameDiscontinuity::Resumed
        } else {
            FrameDiscontinuity::Continuous
        },
{
}

/// Observing a frame ends staleness, clears the last drop reason and makes
/// the frame the new reference, while the restart and drop counters never
/// decrease.
pub proof fn law_observe_resets_staleness_and_keeps_counters(
    m: IntegrityModel,
    current: FrameObservation,
)
    ensures
        observed(m, current).stale == false,
        observed(m, current).last_drop_reason is None,
        observed(m, current).last_observation == Some(current),
        observed(m, current).writer_restarts >= m.writer_restarts,
        observed(m, current).inferred_dropped_frames >= m.inferred_dropped_frames,
        observed(m, current).source_id == m.source_id,
{
}

/// A sequence gap of `k` skipped numbers within one generation adds `k` to the
/// inferred drop count (saturating), and a skipped-over sequence never counts
/// as fewer than one frame.
pub proof fn law_sequence_gap_counts_skipped_frames(m: IntegrityModel, current: FrameObservation)
    requires
        m.last_observation matches Some(p) && integrity_of(m.last_observation, current, m.stale)
            == FrameDiscontinuity::FramesDropped,
    ensures
        ({
            let p = m.last_observation->0;
            let gap = sequence_gap(p.sequence, current.sequence);
            observed(m, current).inferred_dropped_frames == saturating_add(
                m.inferred_dropped_frames,
                if gap > 1 {
                    gap
                } else {
                    1
                },
            )
        }),
        observed(m, current).inferred_dropped_frames > m.inferred_dropped_frames
            || m.inferred_dropped_frames == u64::MAX,
{
}

/// Within one generation and format, with a timestamp that does not go back,
/// a frame whose sequence is not the previous one's successor (wrapping at
/// 64 bits) is a drop whether or not the source was stale, and observing it
/// adds at least one inferred dropped frame.
pub proof fn law_sequence_gap_is_a_drop_even_when_stale(
    m: IntegrityModel,
    previous: FrameObservation,
    current: FrameObservation,
)
    requires
        m.last_observation == Some(previous),
        previous.generation == current.generation,
        previous.width == current.width,
        previous.height == current.height,
        previous.pixel_format == current.pixel_format,
        previous.monotonic_timestamp_nanos <= current.monotonic_timestamp_nanos,
        current.sequence != (previous.sequence + 1) % 0x1_0000_0000_0000_0000,
    ensures
        integrity_of(Some(previous), current, true) == FrameDiscontinuity::FramesDropped,
        integrity_of(Some(previous), current, false) == FrameDiscontinuity::FramesDropped,
        observed(m, current).last_discontinuity == FrameDiscontinuity::FramesDropped,
        observed(m, current).inferred_dropped_frames > m.inferred_dropped_frames
            || m.inferred_dropped_frames == u64::MAX,
{
}

} // verus!
