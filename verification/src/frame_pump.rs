//! The virtual camera's view of the frame transport: the newest frame and
//! the output buffer made from it, kept until they go stale, with the
//! integrity history of what arrived. The output buffer type is the
//! caller's; this module only keeps and hands back the values it is given.
use vstd::prelude::*;

use crate::frame_integrity::{
    integrity_of, observed, saturating_add, FrameDiscontinuity, FrameIntegrityState,
    IntegrityDropReason, IntegrityModel,
};
use crate::output_stream::{
    frame_is_stale_at, normalized_fps, normalized_transport_fps, observation_of, stale_at,
    FrameSnapshot,
};
use crate::text::str_eq;

verus! {

/// What one read of the frame transport produced.
#[derive(Debug)]
pub enum TransportPoll<B> {
    /// A new frame, with the output buffer made from it, or `None` when no
    /// buffer was available.
    Frame(FrameSnapshot, Option<B>),
    /// Nothing new.
    Empty,
    /// The read failed with this message.
    Failed(String),
}

/// The outcome of one pump tick.
#[derive(Debug)]
pub struct PumpTick {
    /// The rate the next sample is timed at.
    pub fps: u32,
    /// How this tick's output relates to the previous one.
    pub discontinuity: FrameDiscontinuity,
    /// A read failure not reported before, to log once.
    pub new_error: Option<String>,
    /// The last frame went stale on this tick: one stale drop to record.
    pub became_stale: bool,
}

/// Mathematical content of a [`LatestFrameReader`].
pub struct ReaderModel<B> {
    pub last_frame: Option<FrameSnapshot>,
    pub last_pixel_buffer: Option<B>,
    pub last_error: Option<Seq<char>>,
    pub stale: bool,
    pub integrity: IntegrityModel,
}

/// The newest transport frame, its output buffer and the integrity history.
#[derive(Debug)]
pub struct LatestFrameReader<B> {
    last_frame: Option<FrameSnapshot>,
    last_pixel_buffer: Option<B>,
    last_error: Option<String>,
    stale: bool,
    integrity: FrameIntegrityState,
}

impl<B> View for LatestFrameReader<B> {
    type V = ReaderModel<B>;

    closed spec fn view(&self) -> ReaderModel<B> {
        ReaderModel {
            last_frame: self.last_frame,
            last_pixel_buffer: self.last_pixel_buffer,
            last_error: match self.last_error {
                Some(e) => Some(e@),
                None => None,
            },
            stale: self.stale,
            integrity: self.integrity@,
        }
    }
}

/// `m` with one more lost frame of `reason`.
pub open spec fn with_drop(m: IntegrityModel, reason: IntegrityDropReason) -> IntegrityModel {
    IntegrityModel {
        last_drop_reason: Some(reason),
        inferred_dropped_frames: saturating_add(m.inferred_dropped_frames, 1),
        ..m
    }
}

/// The reader after taking in what the transport produced, the
/// discontinuity this implies, and whether a read failure is new.
///
/// A frame clears the read error and is judged against the history; it
/// replaces the kept frame only when a buffer could be made from it,
/// otherwise it counts as dropped for backpressure. A read failure counts as
/// one drop the first time its message is seen.
pub open spec fn received<B>(r: ReaderModel<B>, outcome: TransportPoll<B>) -> (
    ReaderModel<B>,
    FrameDiscontinuity,
    bool,
) {
    match outcome {
        TransportPoll::Frame(snapshot, buffer) => {
            let d = integrity_of(r.integrity.last_observation, observation_of(snapshot), r.integrity.stale);
            let history = observed(r.integrity, observation_of(snapshot));
            match buffer {
                Some(b) => (
                    ReaderModel {
                        last_frame: Some(snapshot),
                        last_pixel_buffer: Some(b),
                        last_error: None,
                        stale: false,
                        integrity: history,
                    },
                    d,
                    false,
                ),
                None => (
                    ReaderModel {
                        last_error: None,
                        integrity: with_drop(history, IntegrityDropReason::ConsumerBackpressure),
                        ..r
                    },
                    FrameDiscontinuity::FramesDropped,
                    false,
                ),
            }
        },
        TransportPoll::Empty => (r, FrameDiscontinuity::Continuous, false),
        TransportPoll::Failed(message) => if r.last_error == Some(message@) {
            (r, FrameDiscontinuity::Continuous, false)
        } else {
            (
                ReaderModel {
                    last_error: Some(message@),
                    integrity: with_drop(r.integrity, IntegrityDropReason::TransportReadFailed),
                    ..r
                },
                FrameDiscontinuity::Continuous,
                true,
            )
        },
    }
}

/// The reader once a kept frame that is stale at `now` has been dropped, and
/// whether this started a stale run; the first tick of a run reports the
/// history's staleness discontinuity in place of `d`.
pub open spec fn aged<B>(r: ReaderModel<B>, d: FrameDiscontinuity, now: u64) -> (
    ReaderModel<B>,
    FrameDiscontinuity,
    bool,
) {
    match r.last_frame {
        Some(f) => if stale_at(f, now) {
            if r.stale {
                (ReaderModel { last_frame: None, last_pixel_buffer: None, ..r }, d, false)
            } else {
                (
                    ReaderModel {
                        last_frame: None,
                        last_pixel_buffer: None,
                        last_error: r.last_error,
                        stale: true,
                        integrity: IntegrityModel {
                            last_drop_reason: Some(IntegrityDropReason::Stale),
                            inferred_dropped_frames: saturating_add(
                                r.integrity.inferred_dropped_frames,
                                1,
                            ),
                            stale: true,
                            last_discontinuity: if r.integrity.stale {
                                r.integrity.last_discontinuity
                            } else {
                                FrameDiscontinuity::BecameStale
                            },
                            ..r.integrity
                        },
                    },
                    if r.integrity.stale {
                        FrameDiscontinuity::Continuous
                    } else {
                        FrameDiscontinuity::BecameStale
                    },
                    true,
                )
            }
        } else {
            (r, d, false)
        },
        None => (r, d, false),
    }
}

impl<B> LatestFrameReader<B> {
    /// Nothing received yet; the history is kept under `source_id`.
    pub fn new(source_id: &str) -> (r: Self)
        ensures
            r@.last_frame is None,
            r@.last_pixel_buffer is None,
            r@.last_error is None,
            !r@.stale,
            r@.integrity == (IntegrityModel {
                source_id: source_id@,
                last_observation: None,
                last_discontinuity: FrameDiscontinuity::Continuous,
                last_drop_reason: None,
                inferred_dropped_frames: 0,
                writer_restarts: 0,
                stale: false,
            }),
    {
        LatestFrameReader {
            last_frame: None,
            last_pixel_buffer: None,
            last_error: None,
            stale: false,
            integrity: FrameIntegrityState::new(source_id),
        }
    }

    /// The output buffer of the kept frame.
    pub fn pixel_buffer(&self) -> (b: Option<&B>)
        ensures
            b == match self@.last_pixel_buffer {
                Some(x) => Some(&x),
                None => None::<&B>,
            },
    {
        match &self.last_pixel_buffer {
            Some(b) => Some(b),
            None => None,
        }
    }

    /// The kept frame.
    pub fn last_frame(&self) -> (f: Option<FrameSnapshot>)
        ensures
            f == self@.last_frame,
    {
        self.last_frame
    }

    /// The integrity history.
    pub fn integrity(&self) -> (h: &FrameIntegrityState)
        ensures
            h@ == self@.integrity,
    {
        &self.integrity
    }

    /// One pump tick: takes in what the transport produced, drops a kept
    /// frame that is stale at `now_nanos`, and reports the rate of the kept
    /// frame (or the default) with the tick's discontinuity.
    pub fn poll(&mut self, outcome: TransportPoll<B>, now_nanos: u64) -> (tick: PumpTick)
        ensures
            ({
                let (after_read, d, new_error) = received(old(self)@, outcome);
                let (after_age, d2, became_stale) = aged(after_read, d, now_nanos);
                &&& final(self)@ == after_age
                &&& tick.discontinuity == d2
                &&& tick.became_stale == became_stale
                &&& tick.fps == normalized_fps(
                    match after_age.last_frame {
                        Some(f) => Some(f.fps),
                        None => None,
                    },
                )
                &&& new_error ==> (tick.new_error matches Some(m) && outcome matches TransportPoll::Failed(
                    message,
                ) && m@ == message@)
                &&& !new_error ==> tick.new_error is None
            }),
    {
        let mut discontinuity = FrameDiscontinuity::Continuous;
        let mut new_error: Option<String> = None;
        match outcome {
            TransportPoll::Frame(snapshot, buffer) => {
                self.last_error = None;
                discontinuity = self.integrity.observe(snapshot.observation());
                match buffer {
                    Some(b) => {
                        self.last_pixel_buffer = Some(b);
                        self.last_frame = Some(snapshot);
                        self.stale = false;
                    },
                    None => {
                        self.integrity.mark_drop(IntegrityDropReason::ConsumerBackpressure, 1);
                        discontinuity = FrameDiscontinuity::FramesDropped;
                    },
                }
            },
            TransportPoll::Empty => {},
            TransportPoll::Failed(message) => {
                let repeated = match &self.last_error {
                    Some(previous) => str_eq(previous.as_str(), message.as_str()),
                    None => false,
                };
                if !repeated {
                    new_error = Some(message.clone());
                    self.last_error = Some(message);
                    self.integrity.mark_drop(IntegrityDropReason::TransportReadFailed, 1);
                }
            },
        }
        let mut became_stale = false;
        let stale_now = match &self.last_frame {
            Some(frame) => frame_is_stale_at(frame, now_nanos),
            None => false,
        };
        if stale_now {
            self.last_frame = None;
            self.last_pixel_buffer = None;
            if !self.stale {
                discontinuity = self.integrity.mark_stale();
                self.stale = true;
                became_stale = true;
            }
        }
        let fps = normalized_transport_fps(
            match self.last_frame {
                Some(frame) => Some(frame.fps),
                None => None,
            },
        );
        PumpTick { fps, discontinuity, new_error, became_stale }
    }
}

/// Once stale, the reader stays quiet: a further tick with nothing new
/// reports no second staleness discontinuity and records no second drop.
pub proof fn law_staleness_is_reported_once<B>(r: ReaderModel<B>, now: u64)
    requires
        r.stale,
    ensures
        ({
            let (after_read, d, _) = received(r, TransportPoll::<B>::Empty);
            let (after_age, d2, became_stale) = aged(after_read, d, now);
            d2 == FrameDiscontinuity::Continuous && !became_stale && after_age.integrity
                == r.integrity
        }),
{
}

/// A repeated read failure is logged and counted once.
pub proof fn law_repeated_failure_is_counted_once<B>(r: ReaderModel<B>, message: String)
    requires
        r.last_error == Some(message@),
    ensures
        received(r, TransportPoll::<B>::Failed(message)) == (r, FrameDiscontinuity::Continuous, false),
{
}

} // verus!
