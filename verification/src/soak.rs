//! Measurements of the long-running output soak: the latency summary of the
//! recent frames, read validation of the shared-memory transport, late
//! frames against the output cadence, and signed resource growth.
use vstd::prelude::*;

use crate::diagnostics::{
    lemma_sorted_is_sort_by, percentile_of, percentile_value, sort_ascending, sorted_samples,
};

verus! {

/// Frame latencies kept for the summary.
pub const LATENCY_WINDOW_CAPACITY: usize = 2048;

/// Count, percentiles and maximum of frame latencies, in nanoseconds.
#[derive(Debug, Clone, Copy, PartialEq, Eq, Structural)]
pub struct LatencySummary {
    pub samples: u64,
    pub p50_nanos: u64,
    pub p95_nanos: u64,
    pub p99_nanos: u64,
    pub max_nanos: u64,
}

/// The summary of `samples`: their count, the 50th, 95th and 99th
/// percentiles and the maximum, all zero without samples.
pub open spec fn latency_summary_of(samples: Seq<u64>) -> LatencySummary {
    let sorted = sorted_samples(samples);
    LatencySummary {
        samples: samples.len() as u64,
        p50_nanos: percentile_of(sorted, 50),
        p95_nanos: percentile_of(sorted, 95),
        p99_nanos: percentile_of(sorted, 99),
        max_nanos: if sorted.len() == 0 {
            0
        } else {
            sorted.last()
        },
    }
}

/// Summarizes frame latencies.
pub fn latency_summary(samples: &Vec<u64>) -> (s: LatencySummary)
    ensures
        s == latency_summary_of(samples@),
{
    let sorted = sort_ascending(samples);
    proof {
        lemma_sorted_is_sort_by(samples@, sorted@);
    }
    let max_nanos = if sorted.len() == 0 {
        0
    } else {
        sorted[sorted.len() - 1]
    };
    LatencySummary {
        samples: sorted.len() as u64,
        p50_nanos: percentile_value(&sorted, 50),
        p95_nanos: percentile_value(&sorted, 95),
        p99_nanos: percentile_value(&sorted, 99),
        max_nanos,
    }
}

/// `current - start` as a signed growth, clamped to the `i64` range.
pub open spec fn clamped_growth(current: u64, start: u64) -> i64 {
    let difference = current - start;
    if difference > i64::MAX {
        i64::MAX
    } else if difference < i64::MIN {
        i64::MIN
    } else {
        difference as i64
    }
}

/// Growth of a resource from `start` to `current`; shrinking is negative.
pub fn signed_growth(current: u64, start: u64) -> (g: i64)
    ensures
        g == clamped_growth(current, start),
{
    let difference: i128 = current as i128 - start as i128;
    if difference > i64::MAX as i128 {
        i64::MAX
    } else if difference < i64::MIN as i128 {
        i64::MIN
    } else {
        difference as i64
    }
}

/// Output frames missed when a tick starts `late_by` nanoseconds after its
/// deadline with a frame period of `period`: every whole period behind,
/// plus the late frame itself.
pub fn missed_frames(late_by: u64, period: u64) -> (missed: u64)
    requires
        period > 0,
    ensures
        missed == if late_by / period + 1 > u64::MAX {
            u64::MAX
        } else {
            (late_by / period + 1) as u64
        },
{
    (late_by / period).saturating_add(1)
}

/// Counters of the transport reads the soak checks.
#[derive(Debug, Clone, Copy, PartialEq, Eq, Structural)]
pub struct FrameValidation {
    pub reads: u64,
    pub read_misses: u64,
    pub sequence_errors: u64,
    pub generation_errors: u64,
    pub torn_frames: u64,
}

/// `n + 1`, saturating.
pub open spec fn bumped(n: u64) -> u64 {
    if n == u64::MAX {
        n
    } else {
        (n + 1) as u64
    }
}

/// What the validator expects of the next read.
#[derive(Debug, Clone, Copy, PartialEq, Eq, Structural)]
pub struct ReadValidator {
    pub counts: FrameValidation,
    pub last_sequence: Option<u64>,
    pub generation: Option<u64>,
}

impl ReadValidator {
    /// Nothing read yet.
    pub fn new() -> (v: Self)
        ensures
            v.counts == (FrameValidation {
                reads: 0,
                read_misses: 0,
                sequence_errors: 0,
                generation_errors: 0,
                torn_frames: 0,
            }),
            v.last_sequence is None,
            v.generation is None,
    {
        ReadValidator {
            counts: FrameValidation {
                reads: 0,
                read_misses: 0,
                sequence_errors: 0,
                generation_errors: 0,
                torn_frames: 0,
            },
            last_sequence: None,
            generation: None,
        }
    }

    /// Counts a read that found no frame.
    pub fn record_miss(&mut self)
        ensures
            final(self).counts == (FrameValidation {
                read_misses: bumped(old(self).counts.read_misses),
                ..old(self).counts
            }),
            final(self).last_sequence == old(self).last_sequence,
            final(self).generation == old(self).generation,
    {
        self.counts.read_misses = self.counts.read_misses.saturating_add(1);
    }

    /// Checks a frame read back from the transport: its sequence must follow
    /// the previous one, its generation must be the first one seen, and its
    /// contents must match what was written (`exact_match`).
    pub fn record_read(&mut self, sequence: u64, generation: u64, exact_match: bool)
        requires
            old(self).last_sequence matches Some(p) ==> p < u64::MAX,
        ensures
            final(self).counts == (FrameValidation {
                reads: bumped(old(self).counts.reads),
                read_misses: old(self).counts.read_misses,
                sequence_errors: if old(self).last_sequence matches Some(p) && sequence != p + 1 {
                    bumped(old(self).counts.sequence_errors)
                } else {
                    old(self).counts.sequence_errors
                },
                generation_errors: if old(self).generation matches Some(g) && generation != g {
                    bumped(old(self).counts.generation_errors)
                } else {
                    old(self).counts.generation_errors
                },
                torn_frames: if exact_match {
                    old(self).counts.torn_frames
                } else {
                    bumped(old(self).counts.torn_frames)
                },
            }),
            final(self).last_sequence == Some(sequence),
            final(self).generation == match old(self).generation {
                Some(g) => Some(g),
                None => Some(generation),
            },
    {
        self.counts.reads = self.counts.reads.saturating_add(1);
        if let Some(previous) = self.last_sequence {
            if sequence != previous + 1 {
                self.counts.sequence_errors = self.counts.sequence_errors.saturating_add(1);
            }
        }
        if let Some(expected) = self.generation {
            if generation != expected {
                self.counts.generation_errors = self.counts.generation_errors.saturating_add(1);
            }
        }
        self.last_sequence = Some(sequence);
        if self.generation.is_none() {
            self.generation = Some(generation);
        }
        if !exact_match {
            self.counts.torn_frames = self.counts.torn_frames.saturating_add(1);
        }
    }
}

/// `a + b`, saturating at `u64::MAX`.
pub open spec fn sat_add(a: u64, b: u64) -> u64 {
    if a + b > u64::MAX {
        u64::MAX
    } else {
        (a + b) as u64
    }
}

/// `a * b`, saturating at `u64::MAX`.
pub open spec fn sat_mul(a: u64, b: u64) -> u64 {
    if a * b > u64::MAX {
        u64::MAX
    } else {
        (a * b) as u64
    }
}

/// The soak's clock plan, in nanoseconds since the run started: when the
/// next output frame is due, when the next usage sample is due, and how many
/// frames were missed so far.
#[derive(Debug, Clone, Copy, PartialEq, Eq, Structural)]
pub struct SoakSchedule {
    pub next_deadline: u64,
    pub next_sample: u64,
    pub late_frames: u64,
}

/// What the soak loop does after a frame.
#[derive(Debug, Clone, Copy, PartialEq, Eq, Structural)]
pub enum PacingAction {
    /// Sleep this many nanoseconds until the next frame is due.
    Sleep(u64),
    /// The loop fell behind: this many frames were missed and skipped.
    Late(u64),
}

impl SoakSchedule {
    /// A run that starts now: the first frame and the first sample are due
    /// at once.
    pub fn new() -> (s: Self)
        ensures
            s == (SoakSchedule { next_deadline: 0, next_sample: 0, late_frames: 0 }),
    {
        SoakSchedule { next_deadline: 0, next_sample: 0, late_frames: 0 }
    }

    /// Whether the run of `duration` nanoseconds is over at `now`.
    pub fn finished(now: u64, duration: u64) -> (b: bool)
        ensures
            b == (now >= duration),
    {
        now >= duration
    }

    /// Whether a usage sample is due at `now`; taking it schedules the next
    /// one `sample_period` later.
    pub fn sample_due(&mut self, now: u64, sample_period: u64) -> (due: bool)
        ensures
            due == (now >= old(self).next_sample),
            due ==> *final(self) == (SoakSchedule {
                next_sample: sat_add(now, sample_period),
                ..*old(self)
            }),
            !due ==> *final(self) == *old(self),
    {
        if now >= self.next_sample {
            self.next_sample = now.saturating_add(sample_period);
            true
        } else {
            false
        }
    }

    /// Paces the loop after a frame that finished at `now`: the deadline
    /// advances one period; a loop ahead of it sleeps until then, a loop
    /// behind it counts the frames it missed and skips past them.
    pub fn pace(&mut self, now: u64, frame_period: u64) -> (action: PacingAction)
        requires
            frame_period > 0,
        ensures
            ({
                let deadline = sat_add(old(self).next_deadline, frame_period);
                if now < deadline {
                    action == PacingAction::Sleep((deadline - now) as u64) && *final(self) == (
                    SoakSchedule { next_deadline: deadline, ..*old(self) })
                } else {
                    let missed = if ((now - deadline) as u64) / frame_period + 1 > u64::MAX {
                        u64::MAX
                    } else {
                        (((now - deadline) as u64) / frame_period + 1) as u64
                    };
                    let skipped = if missed > u32::MAX {
                        u32::MAX as u64
                    } else {
                        missed
                    };
                    &&& action == PacingAction::Late(missed)
                    &&& *final(self) == (SoakSchedule {
                        next_deadline: sat_add(deadline, sat_mul(frame_period, skipped)),
                        next_sample: old(self).next_sample,
                        late_frames: sat_add(old(self).late_frames, missed),
                    })
                }
            }),
    {
        let deadline = self.next_deadline.saturating_add(frame_period);
        self.next_deadline = deadline;
        if now < deadline {
            return PacingAction::Sleep(deadline - now);
        }
        let missed = missed_frames(now - deadline, frame_period);
        self.late_frames = self.late_frames.saturating_add(missed);
        let skipped: u64 = if missed > u32::MAX as u64 {
            u32::MAX as u64
        } else {
            missed
        };
        let step: u64 = match frame_period.checked_mul(skipped) {
            Some(product) => product,
            None => u64::MAX,
        };
        self.next_deadline = deadline.saturating_add(step);
        PacingAction::Late(missed)
    }
}

} // verus!
