//! Choosing the frame each scene source contributes to a composite: fresh
//! frames pass, and the missing-source policy decides what stands in for a
//! source without one. The newest fresh frame of each source is remembered
//! for a short while so a brief dropout can be bridged.
use vstd::prelude::*;

use crate::frame::{CapturedFrame, FrameMetadata, FrameModel};
use crate::text::str_eq;
use vstd::pervasive::VecAdditionalExecFns;

verus! {

/// A frame older than this is no longer shown as live (2 s).
pub const SOURCE_STALE_AFTER_NANOS: u64 = 2_000_000_000;

/// How long a remembered frame may stand in for a missing one (1 s).
pub const FREEZE_BRIEFLY_FOR_NANOS: u64 = 1_000_000_000;

/// What a scene shows for a source without a fresh frame.
#[derive(Debug, Clone, Copy, PartialEq, Eq, Structural)]
pub enum MissingSourcePolicy {
    /// Keep the cell and draw a placeholder.
    Placeholder,
    /// Show the source's last fresh frame for a moment, then a placeholder.
    FreezeBriefly,
    /// Leave the source out of the composite.
    HideCell,
    /// Withhold the whole output while any source is missing.
    StopOutput,
}

/// Time from `at` to `now`, zero if the clock reads earlier.
pub open spec fn elapsed_since(now: u64, at: u64) -> u64 {
    if now >= at {
        (now - at) as u64
    } else {
        0
    }
}

/// The frame is present and captured no more than 2 s before `now`.
pub open spec fn is_fresh(frame: Option<CapturedFrame>, now: u64) -> bool {
    frame matches Some(f) && elapsed_since(now, f.spec_metadata().timestamps.monotonic.0)
        <= SOURCE_STALE_AFTER_NANOS
}

/// Pixels and metadata of a capture, the content a copy keeps.
pub open spec fn capture_of(f: CapturedFrame) -> (FrameModel, FrameMetadata) {
    (f.spec_frame()@, f.spec_metadata())
}

/// What the cache holds for a source: the capture and when it was seen.
pub type Remembered = ((FrameModel, FrameMetadata), u64);

/// One remembered frame.
#[derive(Debug)]
pub struct LastGoodFrame {
    pub source_id: String,
    pub frame: CapturedFrame,
    pub seen_at: u64,
}

/// The newest fresh frame of each source, keyed by source id.
#[derive(Debug)]
pub struct LastGoodFrames {
    entries: Vec<LastGoodFrame>,
}

pub open spec fn remembered(e: LastGoodFrame) -> Remembered {
    (capture_of(e.frame), e.seen_at)
}

/// The key of entry `i` is `k`.
pub open spec fn keyed(entries: Seq<LastGoodFrame>, i: int, k: Seq<char>) -> bool {
    0 <= i < entries.len() && entries[i].source_id@ == k
}

/// The map a list of entries with distinct keys stands for.
pub open spec fn entries_map(entries: Seq<LastGoodFrame>) -> Map<Seq<char>, Remembered> {
    Map::new(
        |k: Seq<char>| exists|i: int| keyed(entries, i, k),
        |k: Seq<char>| remembered(entries[choose|i: int| keyed(entries, i, k)]),
    )
}

/// No two entries share a key.
pub open spec fn distinct_keys(entries: Seq<LastGoodFrame>) -> bool {
    forall|i: int, j: int|
        0 <= i < entries.len() && 0 <= j < entries.len() && i != j ==> entries[i].source_id@
            != entries[j].source_id@
}

proof fn lemma_entries_map_at(entries: Seq<LastGoodFrame>, i: int)
    requires
        distinct_keys(entries),
        0 <= i < entries.len(),
    ensures
        entries_map(entries).contains_key(entries[i].source_id@),
        entries_map(entries)[entries[i].source_id@] == remembered(entries[i]),
{
    let k = entries[i].source_id@;
    assert(keyed(entries, i, k));
    let j = choose|j: int| keyed(entries, j, k);
    assert(j == i);
}

impl View for LastGoodFrames {
    type V = Map<Seq<char>, Remembered>;

    closed spec fn view(&self) -> Map<Seq<char>, Remembered> {
        entries_map(self.entries@)
    }
}

impl LastGoodFrames {
    pub closed spec fn wf(&self) -> bool {
        distinct_keys(self.entries@)
    }

    /// Nothing remembered.
    pub fn new() -> (c: Self)
        ensures
            c.wf(),
            c@ == Map::<Seq<char>, Remembered>::empty(),
    {
        let c = LastGoodFrames { entries: Vec::new() };
        assert(c@ =~= Map::<Seq<char>, Remembered>::empty());
        c
    }

    /// Sources with a remembered frame.
    pub fn len(&self) -> (n: usize)
        requires
            self.wf(),
        ensures
            n == self@.len(),
    {
        proof {
            self.lemma_len();
        }
        self.entries.len()
    }

    proof fn lemma_len(&self)
        requires
            self.wf(),
        ensures
            self@.len() == self.entries@.len(),
            self@.dom().finite(),
    {
        let entries = self.entries@;
        let keys = entries.map_values(|e: LastGoodFrame| e.source_id@);
        assert forall|i: int, j: int| 0 <= i < j < keys.len() implies keys[i] != keys[j] by {}
        keys.unique_seq_to_set();
        assert(self@.dom() =~= keys.to_set()) by {
            assert forall|k: Seq<char>| self@.dom().contains(k) implies keys.to_set().contains(k) by {
                let i = choose|i: int| keyed(entries, i, k);
                assert(keys[i] == k);
            }
            assert forall|k: Seq<char>| keys.to_set().contains(k) implies self@.dom().contains(k) by {
                let i = choose|i: int| 0 <= i < keys.len() && keys[i] == k;
                assert(keyed(entries, i, k));
            }
        }
    }

    fn position(&self, id: &str) -> (r: Option<usize>)
        requires
            self.wf(),
        ensures
            r matches Some(i) ==> keyed(self.entries@, i as int, id@),
            r is None ==> !self@.contains_key(id@),
    {
        let mut i: usize = 0;
        while i < self.entries.len()
            invariant
                i <= self.entries@.len(),
                forall|k: int| 0 <= k < i ==> !keyed(self.entries@, k, id@),
            decreases self.entries@.len() - i,
        {
            if str_eq(self.entries[i].source_id.as_str(), id) {
                return Some(i);
            }
            i = i + 1;
        }
        None
    }

    /// The remembered frame of `id`, if any.
    pub fn get(&self, id: &str) -> (r: Option<&LastGoodFrame>)
        requires
            self.wf(),
        ensures
            r is None <==> !self@.contains_key(id@),
            r matches Some(e) ==> e.source_id@ == id@ && remembered(*e) == self@[id@],
    {
        match self.position(id) {
            Some(i) => {
                proof {
                    lemma_entries_map_at(self.entries@, i as int);
                }
                Some(&self.entries[i])
            },
            None => None,
        }
    }

    /// Remembers `frame`, seen at `seen_at`, as the last good frame of `id`.
    pub fn insert(&mut self, id: &str, frame: CapturedFrame, seen_at: u64)
        requires
            old(self).wf(),
        ensures
            final(self).wf(),
            final(self)@ == old(self)@.insert(id@, (capture_of(frame), seen_at)),
    {
        let ghost before = self.entries@;
        let entry = LastGoodFrame { source_id: crate::text::owned(id), frame, seen_at };
        match self.position(id) {
            Some(i) => {
                self.entries.set(i, entry);
                proof {
                    let after = self.entries@;
                    assert(distinct_keys(after));
                    assert forall|k: Seq<char>|
                        #![trigger entries_map(after).contains_key(k)]
                        entries_map(after).contains_key(k) == entries_map(before).insert(
                            id@,
                            remembered(entry),
                        ).contains_key(k) by {
                        if entries_map(before).insert(id@, remembered(entry)).contains_key(k) {
                            if k == id@ {
                                assert(keyed(after, i as int, k));
                            } else {
                                let j = choose|j: int| keyed(before, j, k);
                                assert(keyed(after, j, k));
                            }
                        }
                        if entries_map(after).contains_key(k) {
                            let j = choose|j: int| keyed(after, j, k);
                            if j != i {
                                assert(keyed(before, j, k));
                            }
                        }
                    }
                    assert forall|k: Seq<char>| #[trigger]
                        entries_map(after).contains_key(k) implies entries_map(after)[k]
                        == entries_map(before).insert(id@, remembered(entry))[k] by {
                        let j = choose|j: int| keyed(after, j, k);
                        lemma_entries_map_at(after, j);
                        if j != i {
                            lemma_entries_map_at(before, j);
                        }
                    }
                    assert(entries_map(after) =~= entries_map(before).insert(id@, remembered(entry)));
                }
            },
            None => {
                self.entries.push(entry);
                proof {
                    let after = self.entries@;
                    let n = before.len() as int;
                    assert forall|j: int| 0 <= j < n implies after[j].source_id@ != id@ by {
                        if after[j].source_id@ == id@ {
                            assert(keyed(before, j, id@));
                        }
                    }
                    assert(distinct_keys(after));
                    assert forall|k: Seq<char>|
                        #![trigger entries_map(after).contains_key(k)]
                        entries_map(after).contains_key(k) == entries_map(before).insert(
                            id@,
                            remembered(entry),
                        ).contains_key(k) by {
                        if entries_map(before).insert(id@, remembered(entry)).contains_key(k) {
                            if k == id@ {
                                assert(keyed(after, n, k));
                            } else {
                                let j = choose|j: int| keyed(before, j, k);
                                assert(keyed(after, j, k));
                            }
                        }
                        if entries_map(after).contains_key(k) {
                            let j = choose|j: int| keyed(after, j, k);
                            if j != n {
                                assert(keyed(before, j, k));
                            }
                        }
                    }
                    assert forall|k: Seq<char>| #[trigger]
                        entries_map(after).contains_key(k) implies entries_map(after)[k]
                        == entries_map(before).insert(id@, remembered(entry))[k] by {
                        let j = choose|j: int| keyed(after, j, k);
                        lemma_entries_map_at(after, j);
                        if j != n {
                            lemma_entries_map_at(before, j);
                        }
                    }
                    assert(entries_map(after) =~= entries_map(before).insert(id@, remembered(entry)));
                }
            },
        }
    }
}

/// `cache` without the frames seen more than `max_age` before `now`.
pub open spec fn seen_within(
    cache: Map<Seq<char>, Remembered>,
    now: u64,
    max_age: u64,
) -> Map<Seq<char>, Remembered> {
    Map::new(
        |k: Seq<char>| cache.contains_key(k) && elapsed_since(now, cache[k].1) <= max_age,
        |k: Seq<char>| cache[k],
    )
}

impl LastGoodFrames {
    /// Forgets the frames seen more than `max_age` before `now`.
    pub fn retain_seen_within(&mut self, now: u64, max_age: u64)
        requires
            old(self).wf(),
        ensures
            final(self).wf(),
            final(self)@ == seen_within(old(self)@, now, max_age),
    {
        let ghost before = self.entries@;
        let mut taken: Vec<LastGoodFrame> = Vec::new();
        std::mem::swap(&mut taken, &mut self.entries);
        let ghost origin: Seq<int> = Seq::empty();
        let ghost mut idx: int = 0;
        while taken.len() > 0
            invariant
                distinct_keys(before),
                0 <= idx <= before.len(),
                taken@ == before.subrange(idx, before.len() as int),
                origin.len() == self.entries@.len(),
                forall|j: int| 0 <= j < origin.len() ==> 0 <= #[trigger] origin[j] < idx,
                forall|a: int, b: int| 0 <= a < b < origin.len() ==> origin[a] < origin[b],
                forall|j: int|
                    0 <= j < origin.len() ==> #[trigger] self.entries@[j] == before[origin[j]],
                forall|j: int|
                    0 <= j < origin.len() ==> elapsed_since(now, (#[trigger] self.entries@[j]).seen_at)
                        <= max_age,
                forall|i: int|
                    0 <= i < idx && elapsed_since(now, before[i].seen_at) <= max_age ==> exists|
                        j: int,
                    |
                        0 <= j < origin.len() && #[trigger] origin[j] == i,
            decreases taken.len(),
        {
            let entry = taken.remove(0);
            let age = if entry.seen_at <= now {
                now - entry.seen_at
            } else {
                0
            };
            let ghost old_origin = origin;
            if age > max_age {
                proof {
                    idx = idx + 1;
                }
            } else {
                self.entries.push(entry);
                proof {
                    origin = origin.push(idx);
                    assert forall|i: int|
                        0 <= i < idx && elapsed_since(now, before[i].seen_at)
                            <= max_age implies exists|j: int|
                        0 <= j < origin.len() && #[trigger] origin[j] == i by {
                        let j = choose|j: int| 0 <= j < old_origin.len() && #[trigger] old_origin[j] == i;
                        assert(origin[j] == i);
                    }
                    assert(origin[origin.len() - 1] == idx);
                    idx = idx + 1;
                }
            }
        }
        proof {
            let after = self.entries@;
            assert(idx == before.len());
            assert(distinct_keys(after)) by {
                assert forall|a: int, b: int|
                    0 <= a < after.len() && 0 <= b < after.len() && a != b implies after[a].source_id@
                    != after[b].source_id@ by {
                    assert(after[a] == before[origin[a]]);
                    assert(after[b] == before[origin[b]]);
                    assert(origin[a] != origin[b]);
                }
            }
            let target = seen_within(entries_map(before), now, max_age);
            assert forall|k: Seq<char>|
                #![trigger entries_map(after).contains_key(k)]
                entries_map(after).contains_key(k) == target.contains_key(k) by {
                if entries_map(after).contains_key(k) {
                    let j = choose|j: int| keyed(after, j, k);
                    assert(after[j] == before[origin[j]]);
                    assert(keyed(before, origin[j], k));
                    lemma_entries_map_at(before, origin[j]);
                }
                if target.contains_key(k) {
                    let i = choose|i: int| keyed(before, i, k);
                    lemma_entries_map_at(before, i);
                    let j = choose|j: int| 0 <= j < origin.len() && #[trigger] origin[j] == i;
                    assert(after[j] == before[i]);
                    assert(keyed(after, j, k));
                }
            }
            assert forall|k: Seq<char>| #[trigger]
                entries_map(after).contains_key(k) implies entries_map(after)[k] == target[k] by {
                let j = choose|j: int| keyed(after, j, k);
                lemma_entries_map_at(after, j);
                assert(after[j] == before[origin[j]]);
                lemma_entries_map_at(before, origin[j]);
            }
            assert(entries_map(after) =~= target);
        }
    }
}

/// The ids of the scene's sources.
pub open spec fn ids_of(source_ids: Seq<String>) -> Seq<Seq<char>> {
    source_ids.map_values(|id: String| id@)
}

/// The cache after the first `n` sources were looked at: each fresh frame
/// is remembered as seen `now`.
pub open spec fn cache_after(
    cache: Map<Seq<char>, Remembered>,
    ids: Seq<Seq<char>>,
    frames: Seq<Option<CapturedFrame>>,
    now: u64,
    n: nat,
) -> Map<Seq<char>, Remembered>
    decreases n,
{
    if n == 0 {
        cache
    } else {
        let before = cache_after(cache, ids, frames, now, (n - 1) as nat);
        if is_fresh(frames[n - 1], now) {
            before.insert(ids[n - 1], (capture_of(frames[n - 1]->0), now))
        } else {
            before
        }
    }
}

/// The remembered capture of `id`, if it was seen at most 1 s before `now`.
pub open spec fn stand_in(cache: Map<Seq<char>, Remembered>, id: Seq<char>, now: u64) -> Option<
    (FrameModel, FrameMetadata),
> {
    if cache.contains_key(id) && elapsed_since(now, cache[id].1) <= FREEZE_BRIEFLY_FOR_NANOS {
        Some(cache[id].0)
    } else {
        None
    }
}

/// What source `i` contributes: its fresh frame; without one, under
/// `FreezeBriefly`, its recently remembered frame; otherwise nothing.
pub open spec fn resolved_capture(
    policy: MissingSourcePolicy,
    cache: Map<Seq<char>, Remembered>,
    ids: Seq<Seq<char>>,
    frames: Seq<Option<CapturedFrame>>,
    now: u64,
    i: int,
) -> Option<(FrameModel, FrameMetadata)> {
    if is_fresh(frames[i], now) {
        Some(capture_of(frames[i]->0))
    } else if policy == MissingSourcePolicy::FreezeBriefly {
        stand_in(cache_after(cache, ids, frames, now, i as nat), ids[i], now)
    } else {
        None
    }
}

/// The sources among the first `n` that keep a cell: all of them, except
/// that `HideCell` drops those contributing nothing.
pub open spec fn kept_sources(
    policy: MissingSourcePolicy,
    cache: Map<Seq<char>, Remembered>,
    ids: Seq<Seq<char>>,
    frames: Seq<Option<CapturedFrame>>,
    now: u64,
    n: nat,
) -> Seq<int>
    decreases n,
{
    if n == 0 {
        Seq::empty()
    } else {
        let before = kept_sources(policy, cache, ids, frames, now, (n - 1) as nat);
        if policy == MissingSourcePolicy::HideCell && resolved_capture(
            policy,
            cache,
            ids,
            frames,
            now,
            n - 1,
        ) is None {
            before
        } else {
            before.push(n - 1)
        }
    }
}

/// Sources among the first `n` without a fresh frame.
pub open spec fn missing_count(frames: Seq<Option<CapturedFrame>>, now: u64, n: nat) -> nat
    decreases n,
{
    if n == 0 {
        0
    } else {
        missing_count(frames, now, (n - 1) as nat) + if is_fresh(frames[n - 1], now) {
            0nat
        } else {
            1nat
        }
    }
}

/// The frames a composite is drawn from.
#[derive(Debug)]
pub struct PreparedSources {
    /// One entry per kept cell, in scene order; `None` draws a placeholder.
    pub frames: Vec<Option<CapturedFrame>>,
    /// The scene position of the source behind each entry of `frames`.
    pub sources: Vec<usize>,
    /// Sources without a fresh frame.
    pub missing: usize,
    /// The output is withheld this time.
    pub suppress_output: bool,
}

/// Pairs each source id with its frame (as far as both lists go), keeps
/// fresh frames, applies `policy` to the others, remembers the fresh frames
/// as seen `now`, and finally forgets frames seen more than 2 s ago.
pub fn prepare_sources(
    cache: &mut LastGoodFrames,
    policy: MissingSourcePolicy,
    source_ids: &Vec<String>,
    frames: Vec<Option<CapturedFrame>>,
    now: u64,
) -> (p: PreparedSources)
    requires
        old(cache).wf(),
    ensures
        final(cache).wf(),
        ({
            let n = if source_ids@.len() <= frames@.len() {
                source_ids@.len()
            } else {
                frames@.len()
            };
            let ids = ids_of(source_ids@);
            let kept = kept_sources(policy, old(cache)@, ids, frames@, now, n);
            &&& p.sources@.len() == kept.len()
            &&& p.frames@.len() == kept.len()
            &&& forall|j: int| 0 <= j < kept.len() ==> #[trigger] p.sources@[j] == kept[j]
            &&& forall|j: int|
                0 <= j < kept.len() ==> match #[trigger] p.frames@[j] {
                    Some(f) => resolved_capture(policy, old(cache)@, ids, frames@, now, kept[j])
                        == Some(capture_of(f)),
                    None => resolved_capture(
                        policy,
                        old(cache)@,
                        ids,
                        frames@,
                        now,
                        kept[j],
                    ) is None,
                }
            &&& p.missing == missing_count(frames@, now, n)
            &&& p.suppress_output == (p.missing > 0 && policy == MissingSourcePolicy::StopOutput)
            &&& final(cache)@ == seen_within(
                cache_after(old(cache)@, ids, frames@, now, n),
                now,
                SOURCE_STALE_AFTER_NANOS,
            )
        }),
{
    let ghost initial = cache@;
    let ghost given = frames@;
    let ghost ids = ids_of(source_ids@);
    let n = if source_ids.len() <= frames.len() {
        source_ids.len()
    } else {
        frames.len()
    };
    let mut frames = frames;
    let mut out_frames: Vec<Option<CapturedFrame>> = Vec::new();
    let mut out_sources: Vec<usize> = Vec::new();
    let mut missing: usize = 0;
    let mut i: usize = 0;
    while i < n
        invariant
            i <= n,
            n <= source_ids@.len(),
            n <= given.len(),
            ids == ids_of(source_ids@),
            frames@.len() == given.len(),
            forall|k: int| i <= k < given.len() ==> #[trigger] frames@[k] == given[k],
            cache.wf(),
            cache@ == cache_after(initial, ids, given, now, i as nat),
            missing == missing_count(given, now, i as nat),
            missing <= i,
            out_sources@.len() == kept_sources(policy, initial, ids, given, now, i as nat).len(),
            out_frames@.len() == out_sources@.len(),
            forall|j: int|
                0 <= j < out_sources@.len() ==> #[trigger] out_sources@[j] == kept_sources(
                    policy,
                    initial,
                    ids,
                    given,
                    now,
                    i as nat,
                )[j],
            forall|j: int|
                0 <= j < out_frames@.len() ==> match #[trigger] out_frames@[j] {
                    Some(f) => resolved_capture(
                        policy,
                        initial,
                        ids,
                        given,
                        now,
                        kept_sources(policy, initial, ids, given, now, i as nat)[j],
                    ) == Some(capture_of(f)),
                    None => resolved_capture(
                        policy,
                        initial,
                        ids,
                        given,
                        now,
                        kept_sources(policy, initial, ids, given, now, i as nat)[j],
                    ) is None,
                },
        decreases n - i,
    {
        let mut slot: Option<CapturedFrame> = None;
        frames.set_and_swap(i, &mut slot);
        assert(slot == given[i as int]);
        let id = source_ids[i].as_str();
        assert(id@ == ids[i as int]);
        let fresh = match slot {
            Some(frame) => if frame.metadata().age_at(now) <= SOURCE_STALE_AFTER_NANOS {
                Some(frame)
            } else {
                None
            },
            None => None,
        };
        assert(fresh is Some <==> is_fresh(given[i as int], now));
        match &fresh {
            Some(frame) => {
                cache.insert(id, frame.duplicate(), now);
            },
            None => {
                missing = missing + 1;
            },
        }
        let resolved = if fresh.is_none() && policy == MissingSourcePolicy::FreezeBriefly {
            match cache.get(id) {
                Some(entry) => {
                    let age = if entry.seen_at <= now {
                        now - entry.seen_at
                    } else {
                        0
                    };
                    if age <= FREEZE_BRIEFLY_FOR_NANOS {
                        Some(entry.frame.duplicate())
                    } else {
                        None
                    }
                },
                None => None,
            }
        } else {
            fresh
        };
        assert(match resolved {
            Some(f) => resolved_capture(policy, initial, ids, given, now, i as int) == Some(
                capture_of(f),
            ),
            None => resolved_capture(policy, initial, ids, given, now, i as int) is None,
        });
        let ghost kept_before = kept_sources(policy, initial, ids, given, now, i as nat);
        if !(policy == MissingSourcePolicy::HideCell && resolved.is_none()) {
            out_frames.push(resolved);
            out_sources.push(i);
        }
        i = i + 1;
        proof {
            let kept_now = kept_sources(policy, initial, ids, given, now, i as nat);
            assert(kept_now.len() >= kept_before.len());
            assert forall|j: int| 0 <= j < kept_before.len() implies kept_now[j] == kept_before[j] by {}
        }
    }
    cache.retain_seen_within(now, SOURCE_STALE_AFTER_NANOS);
    let suppress_output = missing > 0 && policy == MissingSourcePolicy::StopOutput;
    PreparedSources { frames: out_frames, sources: out_sources, missing, suppress_output }
}

/// Only `HideCell` drops cells: under any other policy every source keeps
/// its cell, in scene order.
pub proof fn law_cells_are_dropped_only_when_hidden(
    policy: MissingSourcePolicy,
    cache: Map<Seq<char>, Remembered>,
    ids: Seq<Seq<char>>,
    frames: Seq<Option<CapturedFrame>>,
    now: u64,
    n: nat,
)
    requires
        policy != MissingSourcePolicy::HideCell,
    ensures
        kept_sources(policy, cache, ids, frames, now, n) == Seq::new(n, |i: int| i),
    decreases n,
{
    if n > 0 {
        law_cells_are_dropped_only_when_hidden(policy, cache, ids, frames, now, (n - 1) as nat);
        assert(Seq::new((n - 1) as nat, |i: int| i).push(n - 1) =~= Seq::new(n, |i: int| i));
    }
}

/// Under `HideCell` no cell is left to a placeholder: every kept source
/// contributes a frame.
pub proof fn law_hidden_cells_leave_no_placeholder(
    cache: Map<Seq<char>, Remembered>,
    ids: Seq<Seq<char>>,
    frames: Seq<Option<CapturedFrame>>,
    now: u64,
    n: nat,
)
    ensures
        forall|j: int|
            0 <= j < kept_sources(MissingSourcePolicy::HideCell, cache, ids, frames, now, n).len()
                ==> resolved_capture(
                MissingSourcePolicy::HideCell,
                cache,
                ids,
                frames,
                now,
                #[trigger] kept_sources(MissingSourcePolicy::HideCell, cache, ids, frames, now, n)[j],
            ) is Some,
    decreases n,
{
    if n > 0 {
        law_hidden_cells_leave_no_placeholder(cache, ids, frames, now, (n - 1) as nat);
    }
}

/// A fresh frame always reaches its cell unchanged, whatever the policy.
pub proof fn law_fresh_frames_pass_through(
    policy: MissingSourcePolicy,
    cache: Map<Seq<char>, Remembered>,
    ids: Seq<Seq<char>>,
    frames: Seq<Option<CapturedFrame>>,
    now: u64,
    i: int,
)
    requires
        0 <= i < frames.len(),
        is_fresh(frames[i], now),
    ensures
        resolved_capture(policy, cache, ids, frames, now, i) == Some(capture_of(frames[i]->0)),
{
}

} // verus!
