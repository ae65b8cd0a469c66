//! Pipeline diagnostics: stable stage names, drop counters with a
//! rate-limited event feed, bounded latency windows with percentile
//! summaries, and path redaction for exported reports.
use vstd::prelude::*;
use vstd::relations::sorted_by;

use crate::config::VideoFormat;
use crate::frame::PixelFormat;
use crate::paths::{file_name_of, path_file_name};
use crate::media_time::{monotonic_time_nanos, wall_time_nanos};
use crate::text::{push_str, string_from_chars};

verus! {

pub const PIPELINE_STAGE_COUNT: usize = 6;

pub const DROP_REASON_COUNT: usize = 7;

pub const LATENCY_WINDOW_CAPACITY: usize = 2048;

pub const EVENT_RING_CAPACITY: usize = 256;

pub const FEEDBACK_EVENT_INTERVAL_NANOS: u64 = 100_000_000;

/// One stage of the frame pipeline.
#[derive(Debug, Clone, Copy, PartialEq, Eq, Hash, Structural)]
pub enum PipelineStage {
    Capture,
    Compose,
    Publish,
    Consume,
    PixelBuffer,
    SendSample,
}

pub open spec fn stage_index(stage: PipelineStage) -> nat {
    match stage {
        PipelineStage::Capture => 0,
        PipelineStage::Compose => 1,
        PipelineStage::Publish => 2,
        PipelineStage::Consume => 3,
        PipelineStage::PixelBuffer => 4,
        PipelineStage::SendSample => 5,
    }
}

pub open spec fn stage_name(stage: PipelineStage) -> Seq<char> {
    match stage {
        PipelineStage::Capture => "capture"@,
        PipelineStage::Compose => "compose"@,
        PipelineStage::Publish => "publish"@,
        PipelineStage::Consume => "consume"@,
        PipelineStage::PixelBuffer => "pixel_buffer"@,
        PipelineStage::SendSample => "send_sample"@,
    }
}

impl PipelineStage {
    /// Every stage, in pipeline order.
    pub fn all() -> (stages: [PipelineStage; 6])
        ensures
            forall|i: int| 0 <= i < 6 ==> stage_index(#[trigger] stages@[i]) == i,
    {
        [
            PipelineStage::Capture,
            PipelineStage::Compose,
            PipelineStage::Publish,
            PipelineStage::Consume,
            PipelineStage::PixelBuffer,
            PipelineStage::SendSample,
        ]
    }

    /// Stable name used in traces and reports.
    pub fn name(self) -> (s: &'static str)
        ensures
            s@ == stage_name(self),
    {
        match self {
            Self::Capture => "capture",
            Self::Compose => "compose",
            Self::Publish => "publish",
            Self::Consume => "consume",
            Self::PixelBuffer => "pixel_buffer",
            Self::SendSample => "send_sample",
        }
    }

    /// Position in pipeline order.
    pub fn index(self) -> (i: usize)
        ensures
            i == stage_index(self),
    {
        match self {
            Self::Capture => 0,
            Self::Compose => 1,
            Self::Publish => 2,
            Self::Consume => 3,
            Self::PixelBuffer => 4,
            Self::SendSample => 5,
        }
    }

    /// Native signpost code of the stage.
    pub fn signpost_code(self) -> (code: u32)
        ensures
            code == 0x100 + stage_index(self),
    {
        0x100 + self.index() as u32
    }
}

/// Why a frame was dropped.
#[derive(Debug, Clone, Copy, PartialEq, Eq, Hash, Structural)]
pub enum DropReason {
    SourceMissing,
    Late,
    QueueReplacement,
    AllSlotsBusy,
    Stale,
    PoolExhausted,
    Discontinuity,
}

pub open spec fn drop_index(reason: DropReason) -> nat {
    match reason {
        DropReason::SourceMissing => 0,
        DropReason::Late => 1,
        DropReason::QueueReplacement => 2,
        DropReason::AllSlotsBusy => 3,
        DropReason::Stale => 4,
        DropReason::PoolExhausted => 5,
        DropReason::Discontinuity => 6,
    }
}

impl DropReason {
    /// Every reason, in counter order.
    pub fn all() -> (reasons: [DropReason; 7])
        ensures
            forall|i: int| 0 <= i < 7 ==> drop_index(#[trigger] reasons@[i]) == i,
    {
        [
            DropReason::SourceMissing,
            DropReason::Late,
            DropReason::QueueReplacement,
            DropReason::AllSlotsBusy,
            DropReason::Stale,
            DropReason::PoolExhausted,
            DropReason::Discontinuity,
        ]
    }

    /// Counter slot of the reason.
    pub fn index(self) -> (i: usize)
        ensures
            i == drop_index(self),
    {
        match self {
            Self::SourceMissing => 0,
            Self::Late => 1,
            Self::QueueReplacement => 2,
            Self::AllSlotsBusy => 3,
            Self::Stale => 4,
            Self::PoolExhausted => 5,
            Self::Discontinuity => 6,
        }
    }
}

/// `a + b` wrapping at 2^64, as an atomic fetch-add does.
pub open spec fn wrapping_add(a: u64, b: u64) -> u64 {
    if a + b > u64::MAX {
        (a + b - 0x1_0000_0000_0000_0000) as u64
    } else {
        (a + b) as u64
    }
}

/// Per-reason drop counters.
#[derive(Debug)]
pub struct DropCounters {
    counters: [u64; 7],
}

/// Point-in-time copy of the drop counters.
#[derive(Debug, Clone, Copy, Default, PartialEq, Eq, Structural)]
pub struct DropCountersSnapshot {
    pub source_missing: u64,
    pub late: u64,
    pub queue_replacement: u64,
    pub all_slots_busy: u64,
    pub stale: u64,
    pub pool_exhausted: u64,
    pub discontinuity: u64,
}

impl View for DropCounters {
    type V = Seq<u64>;

    closed spec fn view(&self) -> Seq<u64> {
        self.counters@
    }
}

impl Default for DropCounters {
    fn default() -> (c: Self)
        ensures
            c@ == Seq::new(7, |i: int| 0u64),
    {
        let c = DropCounters { counters: [0, 0, 0, 0, 0, 0, 0] };
        assert(c@ =~= Seq::new(7, |i: int| 0u64));
        c
    }
}

impl DropCounters {
    /// Adds `count` drops for `reason` (wrapping, as an atomic counter does).
    pub fn increment(&mut self, reason: DropReason, count: u64)
        ensures
            final(self)@ == old(self)@.update(
                drop_index(reason) as int,
                wrapping_add(old(self)@[drop_index(reason) as int], count),
            ),
    {
        let i = reason.index();
        let current = self.counters[i];
        self.counters[i] = current.wrapping_add(count);
        assert(self@ =~= old(self)@.update(
            drop_index(reason) as int,
            wrapping_add(old(self)@[drop_index(reason) as int], count),
        ));
    }

    /// The counters by reason.
    pub fn snapshot(&self) -> (s: DropCountersSnapshot)
        ensures
            s.source_missing == self@[0],
            s.late == self@[1],
            s.queue_replacement == self@[2],
            s.all_slots_busy == self@[3],
            s.stale == self@[4],
            s.pool_exhausted == self@[5],
            s.discontinuity == self@[6],
    {
        DropCountersSnapshot {
            source_missing: self.counters[0],
            late: self.counters[1],
            queue_replacement: self.counters[2],
            all_slots_busy: self.counters[3],
            stale: self.counters[4],
            pool_exhausted: self.counters[5],
            discontinuity: self.counters[6],
        }
    }
}

/// Rate limit of the event feed: at most one event per key per interval.
#[derive(Debug)]
pub struct DiagnosticFeedbackGate {
    last_emitted_nanos: [u64; 7],
    minimum_interval_nanos: u64,
}

/// The limiter state as the last emission time of every key and the interval.
pub struct GateModel {
    pub last_emitted: Seq<u64>,
    pub interval: u64,
}

impl View for DiagnosticFeedbackGate {
    type V = GateModel;

    closed spec fn view(&self) -> GateModel {
        GateModel { last_emitted: self.last_emitted_nanos@, interval: self.minimum_interval_nanos }
    }
}

/// Whether the rate limit lets an event for a key through at `now`, given the
/// key's last emission time (`0` for never).
pub open spec fn gate_open(last: u64, now: u64, interval: u64) -> bool {
    !(last != 0 && (if now >= last {
        now - last
    } else {
        0
    }) < interval)
}

impl DiagnosticFeedbackGate {
    /// A gate that has emitted nothing yet.
    pub fn new(minimum_interval_nanos: u64) -> (g: Self)
        ensures
            g@.last_emitted == Seq::new(7, |i: int| 0u64),
            g@.interval == minimum_interval_nanos,
    {
        let g = DiagnosticFeedbackGate {
            last_emitted_nanos: [0, 0, 0, 0, 0, 0, 0],
            minimum_interval_nanos,
        };
        assert(g@.last_emitted =~= Seq::new(7, |i: int| 0u64));
        g
    }

    /// Whether an event for `key` may be emitted at `now_nanos`; a granted
    /// emission records `now_nanos` (at least 1) as the key's last one.
    pub fn should_emit(&mut self, key: usize, now_nanos: u64) -> (emit: bool)
        ensures
            final(self)@.interval == old(self)@.interval,
            key >= 7 ==> !emit && final(self)@.last_emitted == old(self)@.last_emitted,
            key < 7 ==> emit == gate_open(
                old(self)@.last_emitted[key as int],
                now_nanos,
                old(self)@.interval,
            ),
            key < 7 && emit ==> final(self)@.last_emitted == old(self)@.last_emitted.update(
                key as int,
                if now_nanos > 1 {
                    now_nanos
                } else {
                    1
                },
            ),
            !emit ==> final(self)@.last_emitted == old(self)@.last_emitted,
    {
        if key >= 7 {
            return false;
        }
        let observed = self.last_emitted_nanos[key];
        if observed != 0 && now_nanos.saturating_sub(observed) < self.minimum_interval_nanos {
            return false;
        }
        self.last_emitted_nanos[key] = if now_nanos > 1 {
            now_nanos
        } else {
            1
        };
        assert(self@.last_emitted =~= old(self)@.last_emitted.update(
            key as int,
            if now_nanos > 1 {
                now_nanos
            } else {
                1
            },
        ));
        true
    }
}


/// The ordering latency samples are sorted by.
pub open spec fn ascending() -> spec_fn(u64, u64) -> bool {
    |a: u64, b: u64| a <= b
}

/// The samples in ascending order.
pub open spec fn sorted_samples(samples: Seq<u64>) -> Seq<u64> {
    samples.sort_by(ascending())
}

/// Index of the `percentile`-th percentile (clamped to 100) in `count`
/// sorted samples: `(count - 1) * percentile / 100`, or `None` when there are
/// no samples.
pub open spec fn percentile_position(count: nat, percentile: nat) -> Option<nat> {
    if count == 0 {
        None
    } else {
        Some(((count - 1) * (if percentile > 100 {
            100
        } else {
            percentile
        }) / 100) as nat)
    }
}

/// Nearest-rank index of a percentile in a sorted sample set of `sample_count`.
pub fn percentile_index(sample_count: usize, percentile: usize) -> (index: Option<usize>)
    ensures
        match percentile_position(sample_count as nat, percentile as nat) {
            Some(i) => index matches Some(j) && j == i,
            None => index is None,
        },
        index matches Some(i) ==> i < sample_count,
{
    if sample_count == 0 {
        return None;
    }
    let clamped: u128 = if percentile > 100 {
        100
    } else {
        percentile as u128
    };
    let last = (sample_count - 1) as u128;
    assert(last * clamped <= last * 100) by (nonlinear_arith)
        requires
            clamped <= 100,
    ;
    assert(last * clamped / 100 <= last) by (nonlinear_arith)
        requires
            clamped <= 100,
    ;
    let index = (last * clamped / 100) as usize;
    Some(index)
}

/// The sample at a percentile of a sorted sequence, `0` when it is empty.
pub open spec fn percentile_of(sorted: Seq<u64>, percentile: nat) -> u64 {
    match percentile_position(sorted.len(), percentile) {
        Some(i) => sorted[i as int],
        None => 0,
    }
}

/// The oldest sample leaves a full window before a new one enters.
pub open spec fn window_after_record(samples: Seq<u64>, value: u64) -> Seq<u64> {
    if samples.len() >= LATENCY_WINDOW_CAPACITY {
        samples.drop_first().push(value)
    } else {
        samples.push(value)
    }
}

/// The most recent latency samples of one stage, oldest first.
#[derive(Debug)]
pub struct LatencyWindow {
    samples: Vec<u64>,
}

impl View for LatencyWindow {
    type V = Seq<u64>;

    closed spec fn view(&self) -> Seq<u64> {
        self.samples@
    }
}

impl LatencyWindow {
    /// The window never holds more than its capacity.
    pub closed spec fn wf(&self) -> bool {
        self.samples@.len() <= LATENCY_WINDOW_CAPACITY
    }

    pub fn new() -> (w: Self)
        ensures
            w.wf(),
            w@ == Seq::<u64>::empty(),
    {
        LatencyWindow { samples: Vec::new() }
    }

    /// Appends a sample, evicting the oldest one from a full window.
    pub fn record(&mut self, value_nanos: u64)
        requires
            old(self).wf(),
        ensures
            final(self).wf(),
            final(self)@ == window_after_record(old(self)@, value_nanos),
    {
        if self.samples.len() >= LATENCY_WINDOW_CAPACITY {
            self.samples.remove(0);
        }
        self.samples.push(value_nanos);
    }

    /// Count, percentiles and maximum of the window.
    pub fn snapshot(&self, stage: PipelineStage) -> (s: LatencyHistogramSnapshot)
        requires
            self.wf(),
        ensures
            s == summarize(stage, self@),
    {
        let sorted = sort_ascending(&self.samples);
        proof {
            lemma_sorted_is_sort_by(self.samples@, sorted@);
        }
        let max_nanos = if sorted.len() == 0 {
            0
        } else {
            sorted[sorted.len() - 1]
        };
        LatencyHistogramSnapshot {
            stage,
            samples: sorted.len() as u64,
            p50_nanos: percentile_value(&sorted, 50),
            p95_nanos: percentile_value(&sorted, 95),
            p99_nanos: percentile_value(&sorted, 99),
            max_nanos,
        }
    }
}

/// Latency summary of one stage.
#[derive(Debug, Clone, Copy, PartialEq, Eq, Structural)]
pub struct LatencyHistogramSnapshot {
    pub stage: PipelineStage,
    pub samples: u64,
    pub p50_nanos: u64,
    pub p95_nanos: u64,
    pub p99_nanos: u64,
    pub max_nanos: u64,
}

/// The summary a window with `samples` reports for `stage`.
pub open spec fn summarize(stage: PipelineStage, samples: Seq<u64>) -> LatencyHistogramSnapshot {
    let sorted = sorted_samples(samples);
    LatencyHistogramSnapshot {
        stage,
        samples: samples.len() as u64,
        p50_nanos: percentile_of(sorted, 50),
        p95_nanos: percentile_of(sorted, 95),
        p99_nanos: percentile_of(sorted, 99),
        max_nanos: if sorted.len() == 0 {
            0
        } else {
            sorted.last()
        },
    }
}

proof fn lemma_ascending_total()
    ensures
        vstd::relations::total_ordering(ascending()),
{
}

/// A sorted rearrangement of the samples is their sort.
pub(crate) proof fn lemma_sorted_is_sort_by(samples: Seq<u64>, sorted: Seq<u64>)
    requires
        sorted_by(sorted, ascending()),
        sorted.to_multiset() == samples.to_multiset(),
    ensures
        sorted == sorted_samples(samples),
        sorted.len() == samples.len(),
{
    lemma_ascending_total();
    samples.lemma_sort_by_ensures(ascending());
    vstd::seq_lib::lemma_sorted_unique(sorted, samples.sort_by(ascending()), ascending());
    samples.to_multiset_ensures();
    sorted.to_multiset_ensures();
}

/// First position in `sorted` whose sample exceeds `value`.
fn insertion_point(sorted: &Vec<u64>, value: u64) -> (p: usize)
    ensures
        p <= sorted@.len(),
        forall|i: int| 0 <= i < p ==> sorted@[i] <= value,
        sorted_by(sorted@, ascending()) ==> forall|i: int|
            p <= i < sorted@.len() ==> sorted@[i] > value,
{
    let mut p: usize = 0;
    while p < sorted.len() && sorted[p] <= value
        invariant
            p <= sorted@.len(),
            forall|i: int| 0 <= i < p ==> sorted@[i] <= value,
        decreases sorted@.len() - p,
    {
        p = p + 1;
    }
    proof {
        if sorted_by(sorted@, ascending()) && p < sorted@.len() {
            assert forall|i: int| p <= i < sorted@.len() implies sorted@[i] > value by {
                assert(ascending()(sorted@[p as int], sorted@[i]) || i == p);
            }
        }
    }
    p
}

/// The samples in ascending order (insertion sort).
pub(crate) fn sort_ascending(samples: &Vec<u64>) -> (sorted: Vec<u64>)
    ensures
        sorted_by(sorted@, ascending()),
        sorted@.to_multiset() == samples@.to_multiset(),
{
    let mut sorted: Vec<u64> = Vec::new();
    let mut i: usize = 0;
    proof {
        assert(samples@.take(0) =~= Seq::<u64>::empty());
        assert(sorted@ =~= Seq::<u64>::empty());
    }
    while i < samples.len()
        invariant
            i <= samples@.len(),
            sorted_by(sorted@, ascending()),
            sorted@.to_multiset() == samples@.take(i as int).to_multiset(),
        decreases samples@.len() - i,
    {
        let value = samples[i];
        let p = insertion_point(&sorted, value);
        let ghost before = sorted@;
        sorted.insert(p, value);
        proof {
            assert(sorted@ == before.insert(p as int, value));
            assert forall|a: int, b: int| 0 <= a < b < sorted@.len() implies #[trigger] ascending()(
                sorted@[a],
                sorted@[b],
            ) by {
                if b < p {
                    assert(ascending()(before[a], before[b]));
                } else if a > p {
                    assert(ascending()(before[a - 1], before[b - 1]));
                } else if a == p {
                    assert(sorted@[b] == before[b - 1]);
                } else {
                    assert(a < p);
                    if b == p {
                    } else {
                        assert(sorted@[b] == before[b - 1]);
                        assert(before[b - 1] > value);
                    }
                }
            }
            assert(samples@.take(i + 1) =~= samples@.take(i as int).push(value));
            vstd::seq_lib::to_multiset_build(samples@.take(i as int), value);
            vstd::seq_lib::to_multiset_insert(before, p as int, value);
        }
        i = i + 1;
    }
    assert(samples@.take(samples@.len() as int) =~= samples@);
    sorted
}

/// The sample at a percentile of sorted samples, `0` for none.
pub(crate) fn percentile_value(sorted: &Vec<u64>, percentile: usize) -> (v: u64)
    ensures
        v == percentile_of(sorted@, percentile as nat),
{
    match percentile_index(sorted.len(), percentile) {
        Some(index) => {
            sorted[index]
        },
        None => 0,
    }
}


/// The stage at a position of pipeline order.
pub open spec fn stage_at(i: int) -> PipelineStage {
    if i == 0 {
        PipelineStage::Capture
    } else if i == 1 {
        PipelineStage::Compose
    } else if i == 2 {
        PipelineStage::Publish
    } else if i == 3 {
        PipelineStage::Consume
    } else if i == 4 {
        PipelineStage::PixelBuffer
    } else {
        PipelineStage::SendSample
    }
}

/// One latency window per pipeline stage.
#[derive(Debug)]
pub struct LatencyHistograms {
    windows: Vec<LatencyWindow>,
}

impl View for LatencyHistograms {
    type V = Seq<Seq<u64>>;

    closed spec fn view(&self) -> Seq<Seq<u64>> {
        self.windows@.map_values(|w: LatencyWindow| w@)
    }
}

impl LatencyHistograms {
    /// One bounded window for each stage.
    pub closed spec fn wf(&self) -> bool {
        &&& self.windows@.len() == PIPELINE_STAGE_COUNT
        &&& forall|i: int| 0 <= i < self.windows@.len() ==> (#[trigger] self.windows@[i]).wf()
    }

    /// Empty windows for every stage.
    pub fn new() -> (h: Self)
        ensures
            h.wf(),
            h@ == Seq::new(6, |i: int| Seq::<u64>::empty()),
    {
        let mut windows: Vec<LatencyWindow> = Vec::new();
        let mut i: usize = 0;
        while i < PIPELINE_STAGE_COUNT
            invariant
                i <= PIPELINE_STAGE_COUNT,
                windows@.len() == i,
                forall|k: int| 0 <= k < i ==> (#[trigger] windows@[k]).wf() && windows@[k]@
                    == Seq::<u64>::empty(),
            decreases PIPELINE_STAGE_COUNT - i,
        {
            windows.push(LatencyWindow::new());
            i = i + 1;
        }
        let h = LatencyHistograms { windows };
        assert(h@ =~= Seq::new(6, |i: int| Seq::<u64>::empty()));
        h
    }

    /// Records one latency sample for `stage`.
    pub fn record(&mut self, stage: PipelineStage, value_nanos: u64)
        requires
            old(self).wf(),
        ensures
            final(self).wf(),
            final(self)@ == old(self)@.update(
                stage_index(stage) as int,
                window_after_record(old(self)@[stage_index(stage) as int], value_nanos),
            ),
    {
        let i = stage.index();
        let mut window = self.windows.remove(i);
        window.record(value_nanos);
        self.windows.insert(i, window);
        assert(self@ =~= old(self)@.update(
            stage_index(stage) as int,
            window_after_record(old(self)@[stage_index(stage) as int], value_nanos),
        ));
    }

    /// A summary of every stage, in pipeline order.
    pub fn snapshot(&self) -> (s: Vec<LatencyHistogramSnapshot>)
        requires
            self.wf(),
        ensures
            s@.len() == PIPELINE_STAGE_COUNT,
            forall|i: int| 0 <= i < 6 ==> #[trigger] s@[i] == summarize(stage_at(i), self@[i]),
    {
        let stages = PipelineStage::all();
        let mut out: Vec<LatencyHistogramSnapshot> = Vec::new();
        let mut i: usize = 0;
        while i < PIPELINE_STAGE_COUNT
            invariant
                i <= PIPELINE_STAGE_COUNT,
                self.wf(),
                forall|k: int| 0 <= k < 6 ==> stage_index(#[trigger] stages@[k]) == k,
                out@.len() == i,
                forall|k: int| 0 <= k < i ==> #[trigger] out@[k] == summarize(stage_at(k), self@[k]),
            decreases PIPELINE_STAGE_COUNT - i,
        {
            let stage = stages[i];
            assert(stage_index(stages@[i as int]) == i);
            assert(stage == stage_at(i as int));
            out.push(self.windows[i].snapshot(stage));
            i = i + 1;
        }
        out
    }
}

impl Default for LatencyHistograms {
    fn default() -> (h: Self)
        ensures
            h.wf(),
            h@ == Seq::new(6, |i: int| Seq::<u64>::empty()),
    {
        LatencyHistograms::new()
    }
}

/// Percentiles of a sorted sample set never decrease with the percentile.
pub proof fn law_percentiles_are_ordered(samples: Seq<u64>)
    ensures
        summarize(PipelineStage::Capture, samples).p50_nanos <= summarize(
            PipelineStage::Capture,
            samples,
        ).p95_nanos,
        summarize(PipelineStage::Capture, samples).p95_nanos <= summarize(
            PipelineStage::Capture,
            samples,
        ).p99_nanos,
        summarize(PipelineStage::Capture, samples).p99_nanos <= summarize(
            PipelineStage::Capture,
            samples,
        ).max_nanos,
{
    let sorted = sorted_samples(samples);
    lemma_ascending_total();
    samples.lemma_sort_by_ensures(ascending());
    let n = sorted.len();
    if n > 0 {
        let last = n - 1;
        assert(last * 50 / 100 <= last * 95 / 100) by (nonlinear_arith)
            requires
                last >= 0,
        ;
        assert(last * 95 / 100 <= last * 99 / 100) by (nonlinear_arith)
            requires
                last >= 0,
        ;
        assert(last * 99 / 100 <= last) by (nonlinear_arith)
            requires
                last >= 0,
        ;
        let a = last * 50 / 100;
        let b = last * 95 / 100;
        let c = last * 99 / 100;
        assert(a == b || ascending()(sorted[a], sorted[b]));
        assert(b == c || ascending()(sorted[b], sorted[c]));
        assert(c == last || ascending()(sorted[c], sorted[last]));
    }
}

/// What a diagnostic event reports.
#[derive(Debug, Clone, Copy, PartialEq, Eq, Structural)]
pub enum DiagnosticEventKind {
    Drop,
    WriterRestart,
    FormatEpoch,
    TransportConnected,
    TransportDisconnected,
}

/// One entry of the recent-event feed.
#[derive(Debug, Clone, Copy, PartialEq, Eq, Structural)]
pub struct DiagnosticEvent {
    pub monotonic_timestamp_nanos: u64,
    pub kind: DiagnosticEventKind,
    pub drop_reason: Option<DropReason>,
    pub frame_sequence: Option<u64>,
    pub value: u64,
}

/// The drop event recorded at monotonic time `now`.
pub open spec fn drop_event_at(now: u64, reason: DropReason, frame_sequence: Option<u64>, count: u64)
    -> DiagnosticEvent {
    DiagnosticEvent {
        monotonic_timestamp_nanos: now,
        kind: DiagnosticEventKind::Drop,
        drop_reason: Some(reason),
        frame_sequence,
        value: count,
    }
}

/// The feed after recording `event`: the oldest entry leaves a full ring.
pub open spec fn ring_after_record(events: Seq<DiagnosticEvent>, event: DiagnosticEvent) -> Seq<
    DiagnosticEvent,
> {
    if events.len() >= EVENT_RING_CAPACITY {
        events.drop_first().push(event)
    } else {
        events.push(event)
    }
}

/// The most recent diagnostic events, oldest first.
#[derive(Debug)]
pub struct DiagnosticEventRing {
    events: Vec<DiagnosticEvent>,
}

impl View for DiagnosticEventRing {
    type V = Seq<DiagnosticEvent>;

    closed spec fn view(&self) -> Seq<DiagnosticEvent> {
        self.events@
    }
}

impl DiagnosticEventRing {
    /// The ring never holds more than its capacity.
    pub closed spec fn wf(&self) -> bool {
        self.events@.len() <= EVENT_RING_CAPACITY
    }

    pub fn new() -> (r: Self)
        ensures
            r.wf(),
            r@ == Seq::<DiagnosticEvent>::empty(),
    {
        DiagnosticEventRing { events: Vec::new() }
    }

    /// Appends an event, evicting the oldest from a full ring.
    pub fn record(&mut self, event: DiagnosticEvent)
        requires
            old(self).wf(),
        ensures
            final(self).wf(),
            final(self)@ == ring_after_record(old(self)@, event),
    {
        if self.events.len() >= EVENT_RING_CAPACITY {
            self.events.remove(0);
        }
        self.events.push(event);
    }

    /// The events, oldest first.
    pub fn snapshot(&self) -> (events: Vec<DiagnosticEvent>)
        ensures
            events@ == self@,
    {
        let mut out: Vec<DiagnosticEvent> = Vec::new();
        let mut i: usize = 0;
        while i < self.events.len()
            invariant
                i <= self.events@.len(),
                out@ == self.events@.take(i as int),
            decreases self.events@.len() - i,
        {
            out.push(self.events[i]);
            i = i + 1;
            assert(out@ =~= self.events@.take(i as int));
        }
        assert(self.events@.take(self.events@.len() as int) =~= self.events@);
        out
    }
}

impl Default for DiagnosticEventRing {
    fn default() -> (r: Self)
        ensures
            r.wf(),
            r@ == Seq::<DiagnosticEvent>::empty(),
    {
        DiagnosticEventRing::new()
    }
}

/// The newest `EVENT_RING_CAPACITY` entries of an event history.
pub open spec fn newest_events(history: Seq<DiagnosticEvent>) -> Seq<DiagnosticEvent> {
    if history.len() > EVENT_RING_CAPACITY {
        history.subrange(history.len() - EVENT_RING_CAPACITY, history.len() as int)
    } else {
        history
    }
}

/// A ring that holds the newest events of a history holds, after one more
/// record, the newest events of the longer history: whatever was recorded,
/// the ring keeps exactly the last `EVENT_RING_CAPACITY` events, in order.
pub proof fn law_ring_keeps_the_newest_events(
    history: Seq<DiagnosticEvent>,
    event: DiagnosticEvent,
)
    ensures
        ring_after_record(newest_events(history), event) == newest_events(history.push(event)),
{
    assert(ring_after_record(newest_events(history), event) =~= newest_events(
        history.push(event),
    ));
}

/// Path shown in exported reports: only the final component survives.
pub open spec fn redacted(path: Seq<char>) -> Seq<char> {
    match file_name_of(path) {
        Some(name) => "<redacted>/"@ + name,
        None => "<redacted>"@,
    }
}

/// Hides every directory of a path, keeping only its file name.
pub fn redact_path(path: &str) -> (r: String)
    ensures
        r@ == redacted(path@),
{
    let mut out: Vec<char> = Vec::new();
    match path_file_name(path) {
        Some(name) => {
            push_str(&mut out, "<redacted>/");
            let ghost prefix = out@;
            let mut i: usize = 0;
            while i < name.len()
                invariant
                    i <= name@.len(),
                    out@ == prefix + name@.take(i as int),
                decreases name@.len() - i,
            {
                out.push(name[i]);
                i = i + 1;
                assert(out@ =~= prefix + name@.take(i as int));
            }
            assert(name@.take(name@.len() as int) =~= name@);
        },
        None => {
            push_str(&mut out, "<redacted>");
        },
    }
    assert(out@ =~= redacted(path@));
    string_from_chars(out.as_slice())
}

/// Package version and commit the running build was made from.
#[derive(Debug, Clone, PartialEq, Eq)]
pub struct BuildDiagnostics {
    pub package_version: String,
    pub commit_hash: String,
}

/// Operating system and processor architecture.
#[derive(Debug, Clone, PartialEq, Eq)]
pub struct PlatformDiagnostics {
    pub os: String,
    pub architecture: String,
}

/// A configured video format as reports list it.
#[derive(Debug, Clone, Copy, PartialEq, Eq, Structural)]
pub struct DiagnosticFormat {
    pub width: u32,
    pub height: u32,
    pub fps: u32,
    pub pixel_format: PixelFormat,
}

impl DiagnosticFormat {
    /// The report entry of a video format.
    pub fn from_video_format(value: VideoFormat) -> (f: Self)
        ensures
            f.width == value.width,
            f.height == value.height,
            f.fps == value.fps,
            f.pixel_format == value.pixel_format,
    {
        DiagnosticFormat {
            width: value.width,
            height: value.height,
            fps: value.fps,
            pixel_format: value.pixel_format,
        }
    }
}

/// Everything an exported diagnostics report holds.
#[derive(Debug, Clone)]
pub struct DiagnosticsSnapshot {
    pub schema_version: u32,
    pub generated_wall_time_nanos: u128,
    pub build: BuildDiagnostics,
    pub platform: PlatformDiagnostics,
    pub formats: Vec<DiagnosticFormat>,
    pub output_frames: u64,
    pub drops: DropCountersSnapshot,
    pub latency: Vec<LatencyHistogramSnapshot>,
    pub recent_events: Vec<DiagnosticEvent>,
    pub redacted_paths: Vec<String>,
}

pub const DIAGNOSTICS_SCHEMA_VERSION: u32 = 1;

/// Process-wide diagnostic state: drop counters, their rate-limited event
/// feed, per-stage latency windows and the output frame count.
#[derive(Debug)]
pub struct Diagnostics {
    drops: DropCounters,
    gate: DiagnosticFeedbackGate,
    latency: LatencyHistograms,
    events: DiagnosticEventRing,
    output_frames: u64,
}

impl Diagnostics {
    /// Internal bounds hold.
    pub closed spec fn wf(&self) -> bool {
        self.latency.wf() && self.events.wf()
    }

    pub closed spec fn drop_counts(&self) -> Seq<u64> {
        self.drops@
    }

    pub closed spec fn gate_state(&self) -> GateModel {
        self.gate@
    }

    pub closed spec fn latency_windows(&self) -> Seq<Seq<u64>> {
        self.latency@
    }

    pub closed spec fn recent_events(&self) -> Seq<DiagnosticEvent> {
        self.events@
    }

    pub closed spec fn output_frames(&self) -> u64 {
        self.output_frames
    }

    /// Nothing recorded yet; events for a reason are spaced at least
    /// `FEEDBACK_EVENT_INTERVAL_NANOS` apart.
    pub fn new() -> (d: Self)
        ensures
            d.wf(),
            d.drop_counts() == Seq::new(7, |i: int| 0u64),
            d.gate_state().last_emitted == Seq::new(7, |i: int| 0u64),
            d.gate_state().interval == FEEDBACK_EVENT_INTERVAL_NANOS,
            d.latency_windows() == Seq::new(6, |i: int| Seq::<u64>::empty()),
            d.recent_events() == Seq::<DiagnosticEvent>::empty(),
            d.output_frames() == 0,
    {
        Diagnostics {
            drops: DropCounters::default(),
            gate: DiagnosticFeedbackGate::new(FEEDBACK_EVENT_INTERVAL_NANOS),
            latency: LatencyHistograms::new(),
            events: DiagnosticEventRing::new(),
            output_frames: 0,
        }
    }

    /// Counts `count` dropped frames at monotonic time `now_nanos`. A zero
    /// count records nothing; otherwise the counter always grows and a drop
    /// event enters the feed when the rate limit for the reason allows it.
    pub fn record_drop_at(
        &mut self,
        reason: DropReason,
        count: u64,
        frame_sequence: Option<u64>,
        now_nanos: u64,
    )
        requires
            old(self).wf(),
        ensures
            final(self).wf(),
            final(self).latency_windows() == old(self).latency_windows(),
            final(self).output_frames() == old(self).output_frames(),
            count == 0 ==> final(self).drop_counts() == old(self).drop_counts()
                && final(self).gate_state() == old(self).gate_state()
                && final(self).recent_events() == old(self).recent_events(),
            count > 0 ==> final(self).drop_counts() == old(self).drop_counts().update(
                drop_index(reason) as int,
                wrapping_add(old(self).drop_counts()[drop_index(reason) as int], count),
            ),
            count > 0 && gate_open(
                old(self).gate_state().last_emitted[drop_index(reason) as int],
                now_nanos,
                old(self).gate_state().interval,
            ) ==> final(self).recent_events() == ring_after_record(
                old(self).recent_events(),
                DiagnosticEvent {
                    monotonic_timestamp_nanos: now_nanos,
                    kind: DiagnosticEventKind::Drop,
                    drop_reason: Some(reason),
                    frame_sequence,
                    value: count,
                },
            ),
            count > 0 && !gate_open(
                old(self).gate_state().last_emitted[drop_index(reason) as int],
                now_nanos,
                old(self).gate_state().interval,
            ) ==> final(self).recent_events() == old(self).recent_events()
                && final(self).gate_state() == old(self).gate_state(),
    {
        if count == 0 {
            return;
        }
        self.drops.increment(reason, count);
        if !self.gate.should_emit(reason.index(), now_nanos) {
            return;
        }
        self.events.record(
            DiagnosticEvent {
                monotonic_timestamp_nanos: now_nanos,
                kind: DiagnosticEventKind::Drop,
                drop_reason: Some(reason),
                frame_sequence,
                value: count,
            },
        );
    }

    /// Counts dropped frames now; see [`Diagnostics::record_drop_at`]. The
    /// counter grows whatever the clock reads.
    pub fn record_drop(&mut self, reason: DropReason, count: u64, frame_sequence: Option<u64>)
        requires
            old(self).wf(),
        ensures
            final(self).wf(),
            final(self).latency_windows() == old(self).latency_windows(),
            final(self).output_frames() == old(self).output_frames(),
            count == 0 ==> final(self).drop_counts() == old(self).drop_counts()
                && final(self).recent_events() == old(self).recent_events(),
            count > 0 ==> final(self).drop_counts() == old(self).drop_counts().update(
                drop_index(reason) as int,
                wrapping_add(old(self).drop_counts()[drop_index(reason) as int], count),
            ),
            count > 0 ==> final(self).recent_events() == old(self).recent_events()
                || exists|now: u64|
                final(self).recent_events() == ring_after_record(
                    old(self).recent_events(),
                    #[trigger] drop_event_at(now, reason, frame_sequence, count),
                ),
    {
        let now = monotonic_time_nanos();
        self.record_drop_at(reason, count, frame_sequence, now);
        assert(drop_event_at(now, reason, frame_sequence, count) == DiagnosticEvent {
            monotonic_timestamp_nanos: now,
            kind: DiagnosticEventKind::Drop,
            drop_reason: Some(reason),
            frame_sequence,
            value: count,
        });
    }

    /// Records one latency sample for a stage.
    pub fn record_latency(&mut self, stage: PipelineStage, value_nanos: u64)
        requires
            old(self).wf(),
        ensures
            final(self).wf(),
            final(self).latency_windows() == old(self).latency_windows().update(
                stage_index(stage) as int,
                window_after_record(old(self).latency_windows()[stage_index(stage) as int], value_nanos),
            ),
            final(self).drop_counts() == old(self).drop_counts(),
            final(self).recent_events() == old(self).recent_events(),
            final(self).output_frames() == old(self).output_frames(),
    {
        self.latency.record(stage, value_nanos);
    }

    /// Adds an event to the feed directly (writer restarts, format epochs,
    /// transport changes).
    pub fn record_event(&mut self, event: DiagnosticEvent)
        requires
            old(self).wf(),
        ensures
            final(self).wf(),
            final(self).recent_events() == ring_after_record(old(self).recent_events(), event),
            final(self).drop_counts() == old(self).drop_counts(),
            final(self).latency_windows() == old(self).latency_windows(),
            final(self).output_frames() == old(self).output_frames(),
    {
        self.events.record(event);
    }

    /// Counts one delivered output frame (wrapping, as an atomic counter does).
    pub fn record_output_frame(&mut self)
        requires
            old(self).wf(),
        ensures
            final(self).wf(),
            final(self).output_frames() == wrapping_add(old(self).output_frames(), 1),
            final(self).drop_counts() == old(self).drop_counts(),
            final(self).latency_windows() == old(self).latency_windows(),
            final(self).recent_events() == old(self).recent_events(),
    {
        self.output_frames = self.output_frames.wrapping_add(1);
    }

    /// Output frames delivered so far.
    pub fn output_frame_count(&self) -> (n: u64)
        ensures
            n == self.output_frames(),
    {
        self.output_frames
    }

    /// The drop counters.
    pub fn drop_counters(&self) -> (c: &DropCounters)
        ensures
            c@ == self.drop_counts(),
    {
        &self.drops
    }

    /// The latency windows.
    pub fn latency_histograms(&self) -> (h: &LatencyHistograms)
        ensures
            h@ == self.latency_windows(),
            self.wf() ==> h.wf(),
    {
        &self.latency
    }

    /// The recent-event feed.
    pub fn diagnostic_events(&self) -> (r: &DiagnosticEventRing)
        ensures
            r@ == self.recent_events(),
    {
        &self.events
    }

    /// A report of the current state, generated at `generated_wall_time_nanos`,
    /// listing `formats` and the redacted `paths`.
    pub fn snapshot_at(
        &self,
        formats: &[VideoFormat],
        paths: &[&str],
        build: BuildDiagnostics,
        platform: PlatformDiagnostics,
        generated_wall_time_nanos: u128,
    ) -> (s: DiagnosticsSnapshot)
        requires
            self.wf(),
        ensures
            s.schema_version == DIAGNOSTICS_SCHEMA_VERSION,
            s.generated_wall_time_nanos == generated_wall_time_nanos,
            s.build == build,
            s.platform == platform,
            s.formats@.len() == formats@.len(),
            forall|i: int|
                0 <= i < formats@.len() ==> #[trigger] s.formats@[i] == (DiagnosticFormat {
                    width: formats@[i].width,
                    height: formats@[i].height,
                    fps: formats@[i].fps,
                    pixel_format: formats@[i].pixel_format,
                }),
            s.output_frames == self.output_frames(),
            s.drops.source_missing == self.drop_counts()[0],
            s.drops.late == self.drop_counts()[1],
            s.drops.queue_replacement == self.drop_counts()[2],
            s.drops.all_slots_busy == self.drop_counts()[3],
            s.drops.stale == self.drop_counts()[4],
            s.drops.pool_exhausted == self.drop_counts()[5],
            s.drops.discontinuity == self.drop_counts()[6],
            s.latency@.len() == PIPELINE_STAGE_COUNT,
            forall|i: int|
                0 <= i < 6 ==> #[trigger] s.latency@[i] == summarize(
                    stage_at(i),
                    self.latency_windows()[i],
                ),
            s.recent_events@ == self.recent_events(),
            s.redacted_paths@.len() == paths@.len(),
            forall|i: int|
                0 <= i < paths@.len() ==> #[trigger] s.redacted_paths@[i]@ == redacted(
                    paths@[i]@,
                ),
    {
        let mut listed: Vec<DiagnosticFormat> = Vec::new();
        let mut i: usize = 0;
        while i < formats.len()
            invariant
                i <= formats@.len(),
                listed@.len() == i,
                forall|k: int|
                    0 <= k < i ==> #[trigger] listed@[k] == (DiagnosticFormat {
                        width: formats@[k].width,
                        height: formats@[k].height,
                        fps: formats@[k].fps,
                        pixel_format: formats@[k].pixel_format,
                    }),
            decreases formats@.len() - i,
        {
            listed.push(DiagnosticFormat::from_video_format(formats[i]));
            i = i + 1;
        }
        let mut redacted_paths: Vec<String> = Vec::new();
        let mut j: usize = 0;
        while j < paths.len()
            invariant
                j <= paths@.len(),
                redacted_paths@.len() == j,
                forall|k: int|
                    0 <= k < j ==> #[trigger] redacted_paths@[k]@ == redacted(paths@[k]@),
            decreases paths@.len() - j,
        {
            redacted_paths.push(redact_path(paths[j]));
            j = j + 1;
        }
        DiagnosticsSnapshot {
            schema_version: DIAGNOSTICS_SCHEMA_VERSION,
            generated_wall_time_nanos,
            build,
            platform,
            formats: listed,
            output_frames: self.output_frames,
            drops: self.drops.snapshot(),
            latency: self.latency.snapshot(),
            recent_events: self.events.snapshot(),
            redacted_paths,
        }
    }

    /// A report of the current state, stamped with the wall clock now.
    pub fn capture(
        &self,
        formats: &[VideoFormat],
        paths: &[&str],
        build: BuildDiagnostics,
        platform: PlatformDiagnostics,
    ) -> (s: DiagnosticsSnapshot)
        requires
            self.wf(),
        ensures
            s.schema_version == DIAGNOSTICS_SCHEMA_VERSION,
            s.output_frames == self.output_frames(),
            s.recent_events@ == self.recent_events(),
            s.redacted_paths@.len() == paths@.len(),
            forall|i: int|
                0 <= i < paths@.len() ==> #[trigger] s.redacted_paths@[i]@ == redacted(
                    paths@[i]@,
                ),
    {
        let now = wall_time_nanos() as u128;
        self.snapshot_at(formats, paths, build, platform, now)
    }
}

} // verus!
