//! Capture-worker policy: the watchdog deadlines that turn a silent backend
//! into a reported failure, reconnect backoff, per-camera leases and the
//! RGBA to BGRA pixel conversion.
use vstd::prelude::*;

use crate::camera::CameraDevice;
use crate::config::VideoFormat;
use crate::error::{CameraManError, CaptureErrorKind};
use crate::frame::CapturedFrame;
use crate::text::{decimal, owned, parse_u64, push_decimal, push_str, str_chars, str_eq, string_from_chars, trim, trim_bounds};

verus! {

pub const NANOS_PER_MILLI: u64 = 1_000_000;

pub const NANOS_PER_SECOND: u64 = 1_000_000_000;

pub const CAMERA_OPEN_TIMEOUT_ENV: &'static str = "CAMERAMAN_CAMERA_OPEN_TIMEOUT_MS";

/// Default deadline of one pre-streaming phase, in milliseconds.
pub const DEFAULT_CAMERA_OPEN_TIMEOUT_MILLIS: u64 = 20_000;

/// Frame intervals a streaming camera may stay silent before it is stalled.
pub const FRAME_GAP_INTERVALS: u64 = 60;

/// Floor under the frame-gap deadline, in nanoseconds (2 s).
pub const MIN_FRAME_GAP_TIMEOUT: u64 = 2_000_000_000;

/// The open-timeout override, in milliseconds: a positive whole number after
/// trimming whitespace, otherwise the 20 s default.
pub open spec fn open_timeout_millis(value: Option<Seq<char>>) -> u64 {
    match value {
        Some(v) => match parse_u64(trim(v)) {
            Some(millis) if millis > 0 => millis,
            _ => DEFAULT_CAMERA_OPEN_TIMEOUT_MILLIS,
        },
        None => DEFAULT_CAMERA_OPEN_TIMEOUT_MILLIS,
    }
}

/// Parses the open-timeout override.
pub fn parse_open_timeout(value: Option<&str>) -> (millis: u64)
    ensures
        millis == open_timeout_millis(
            match value {
                Some(v) => Some(v@),
                None => None,
            },
        ),
{
    match value {
        None => DEFAULT_CAMERA_OPEN_TIMEOUT_MILLIS,
        Some(text) => {
            let chars = str_chars(text);
            let (start, end) = trim_bounds(chars.as_slice());
            let trimmed = crate::text::chars_slice(chars.as_slice(), start, end);
            match crate::text::parse_u64_chars(trimmed.as_slice()) {
                Some(millis) => if millis > 0 {
                    millis
                } else {
                    DEFAULT_CAMERA_OPEN_TIMEOUT_MILLIS
                },
                None => DEFAULT_CAMERA_OPEN_TIMEOUT_MILLIS,
            }
        },
    }
}

/// What a capture worker is doing before it has published a frame.
#[derive(Debug, Clone, Copy, PartialEq, Eq, Structural)]
pub enum WorkerPhase {
    /// An earlier worker still holds this camera id's lease.
    AwaitingLease,
    /// Inside the backend open call.
    Opening,
    /// Device open, first frame not read yet.
    AwaitingFirstFrame,
    /// At least one frame published.
    Streaming,
}

/// How long a pre-streaming phase has run once past its deadline; `None`
/// within budget or while streaming.
pub fn open_stall_age(phase: WorkerPhase, elapsed: u64, timeout: u64) -> (r: Option<u64>)
    ensures
        r == if phase != WorkerPhase::Streaming && elapsed >= timeout {
            Some(elapsed)
        } else {
            None::<u64>
        },
{
    if phase != WorkerPhase::Streaming && elapsed >= timeout {
        Some(elapsed)
    } else {
        None
    }
}

/// Budget for the next frame of a streaming camera at `fps`: sixty frame
/// intervals, never below the 2 s floor.
pub open spec fn frame_gap_budget(fps: u32) -> u64 {
    if fps == 0 {
        MIN_FRAME_GAP_TIMEOUT
    } else {
        let scaled = (FRAME_GAP_INTERVALS * NANOS_PER_SECOND) / (fps as int);
        if scaled > MIN_FRAME_GAP_TIMEOUT {
            scaled as u64
        } else {
            MIN_FRAME_GAP_TIMEOUT
        }
    }
}

/// Frame-gap deadline in nanoseconds.
pub fn frame_gap_timeout(fps: u32) -> (nanos: u64)
    ensures
        nanos == frame_gap_budget(fps),
{
    if fps == 0 {
        return MIN_FRAME_GAP_TIMEOUT;
    }
    let scaled = (FRAME_GAP_INTERVALS * NANOS_PER_SECOND) / (fps as u64);
    if scaled > MIN_FRAME_GAP_TIMEOUT {
        scaled
    } else {
        MIN_FRAME_GAP_TIMEOUT
    }
}

/// How long a streaming worker has gone without a frame once past its
/// deadline; `None` before the first frame or within budget.
pub fn frame_gap_stall_age(phase: WorkerPhase, gap: u64, timeout: u64) -> (r: Option<u64>)
    ensures
        r == if phase == WorkerPhase::Streaming && gap >= timeout {
            Some(gap)
        } else {
            None::<u64>
        },
{
    if phase == WorkerPhase::Streaming && gap >= timeout {
        Some(gap)
    } else {
        None
    }
}

/// The two watchdogs partition the worker phases: for any phase and any
/// elapsed times past both deadlines, exactly one of them reports a stall.
pub proof fn law_each_phase_has_exactly_one_watchdog(
    phase: WorkerPhase,
    elapsed: u64,
    open_timeout: u64,
    gap: u64,
    gap_timeout: u64,
)
    requires
        elapsed >= open_timeout,
        gap >= gap_timeout,
    ensures
        (phase != WorkerPhase::Streaming && elapsed >= open_timeout) != (phase
            == WorkerPhase::Streaming && gap >= gap_timeout),
{
}

/// The message of a read that hung after frames had arrived.
pub open spec fn stalled_frame_text(id: Seq<char>, stall_nanos: u64) -> Seq<char> {
    "camera "@ + id + " stopped delivering frames "@ + decimal(
        (stall_nanos / NANOS_PER_MILLI) as nat,
    ) + "ms ago"@
}

/// Turns a read that hung after frames had arrived into a timeout failure.
pub fn stalled_frame_error(id: &str, stall_nanos: u64) -> (e: CameraManError)
    ensures
        e matches CameraManError::Capture { kind, message } && kind == CaptureErrorKind::Timeout
            && message@ == stalled_frame_text(id@, stall_nanos),
{
    let mut out: Vec<char> = Vec::new();
    push_str(&mut out, "camera ");
    push_str(&mut out, id);
    push_str(&mut out, " stopped delivering frames ");
    push_decimal(&mut out, stall_nanos / NANOS_PER_MILLI);
    push_str(&mut out, "ms ago");
    CameraManError::Capture { kind: CaptureErrorKind::Timeout, message: string_from_chars(out.as_slice()) }
}

/// The message of a pre-streaming phase that outlived its deadline.
pub open spec fn stalled_open_text(id: Seq<char>, phase: WorkerPhase, elapsed: u64) -> Seq<char> {
    let millis = decimal((elapsed / NANOS_PER_MILLI) as nat);
    match phase {
        WorkerPhase::AwaitingLease => "camera "@ + id
            + " is still held by an earlier capture that did not return after "@ + millis + "ms"@,
        WorkerPhase::Opening => "opening camera "@ + id + " did not return after "@ + millis
            + "ms"@,
        _ => "camera "@ + id + " delivered no first frame after "@ + millis + "ms"@,
    }
}

/// Turns a pre-streaming phase that outlived its deadline into a timeout
/// failure naming the phase; `None` within budget or while streaming.
pub fn stalled_open_error(id: &str, phase: WorkerPhase, elapsed: u64, timeout: u64) -> (r: Option<
    CameraManError,
>)
    ensures
        (phase == WorkerPhase::Streaming || elapsed < timeout) ==> r is None,
        (phase != WorkerPhase::Streaming && elapsed >= timeout) ==> (r matches Some(
            CameraManError::Capture { kind, message },
        ) && kind == CaptureErrorKind::Timeout && message@ == stalled_open_text(
            id@,
            phase,
            elapsed,
        )),
{
    let stalled = match open_stall_age(phase, elapsed, timeout) {
        Some(stalled) => stalled,
        None => {
            return None;
        },
    };
    let millis = stalled / NANOS_PER_MILLI;
    let mut out: Vec<char> = Vec::new();
    match phase {
        WorkerPhase::Streaming => {
            return None;
        },
        WorkerPhase::AwaitingLease => {
            push_str(&mut out, "camera ");
            push_str(&mut out, id);
            push_str(&mut out, " is still held by an earlier capture that did not return after ");
            push_decimal(&mut out, millis);
            push_str(&mut out, "ms");
        },
        WorkerPhase::Opening => {
            push_str(&mut out, "opening camera ");
            push_str(&mut out, id);
            push_str(&mut out, " did not return after ");
            push_decimal(&mut out, millis);
            push_str(&mut out, "ms");
        },
        WorkerPhase::AwaitingFirstFrame => {
            push_str(&mut out, "camera ");
            push_str(&mut out, id);
            push_str(&mut out, " delivered no first frame after ");
            push_decimal(&mut out, millis);
            push_str(&mut out, "ms");
        },
    }
    Some(
        CameraManError::Capture {
            kind: CaptureErrorKind::Timeout,
            message: string_from_chars(out.as_slice()),
        },
    )
}

/// RGBA to BGRA: red and blue swap within every complete four-byte pixel.
pub open spec fn bgra_from_rgba(pixels: Seq<u8>) -> Seq<u8> {
    Seq::new(
        pixels.len(),
        |i: int|
            if i >= pixels.len() - pixels.len() % 4 {
                pixels[i]
            } else if i % 4 == 0 {
                pixels[i + 2]
            } else if i % 4 == 2 {
                pixels[i - 2]
            } else {
                pixels[i]
            },
    )
}

/// Converts RGBA pixels to BGRA in place; trailing bytes of an incomplete
/// pixel are left untouched.
#[verifier::rlimit(40)]
pub fn rgba_to_bgra_in_place(pixels: &mut Vec<u8>)
    ensures
        final(pixels)@ == bgra_from_rgba(old(pixels)@),
{
    let len = pixels.len();
    let whole = len - len % 4;
    let mut i: usize = 0;
    while i < whole
        invariant
            len == old(pixels)@.len(),
            pixels@.len() == len,
            whole == len - len % 4,
            i <= whole,
            i % 4 == 0,
            forall|k: int|
                0 <= k < i ==> #[trigger] pixels@[k] == bgra_from_rgba(old(pixels)@)[k],
            forall|k: int| i <= k < len ==> #[trigger] pixels@[k] == old(pixels)@[k],
        decreases whole - i,
    {
        let red = pixels[i];
        let blue = pixels[i + 2];
        pixels.set(i, blue);
        pixels.set(i + 2, red);
        proof {
            let target = bgra_from_rgba(old(pixels)@);
            assert(i + 4 <= whole);
            assert forall|k: int| i <= k < i + 4 implies #[trigger] pixels@[k] == target[k] by {
                assert(k < len - len % 4);
                assert(k % 4 == k - i);
            }
        }
        i = i + 4;
    }
    assert(pixels@ =~= bgra_from_rgba(old(pixels)@));
}

/// Bounded exponential reconnect backoff: 100 ms doubling up to 5 s.
#[derive(Debug)]
pub struct ReconnectBackoff {
    next: u64,
}

pub const INITIAL_BACKOFF: u64 = 100_000_000;

pub const MAX_BACKOFF: u64 = 5_000_000_000;

/// The delay after `delay`: doubled, capped at 5 s.
pub open spec fn next_backoff(delay: u64) -> u64 {
    if 2 * delay < MAX_BACKOFF {
        (2 * delay) as u64
    } else {
        MAX_BACKOFF
    }
}

impl View for ReconnectBackoff {
    type V = u64;

    closed spec fn view(&self) -> u64 {
        self.next
    }
}

impl Default for ReconnectBackoff {
    fn default() -> (b: Self)
        ensures
            b@ == INITIAL_BACKOFF,
    {
        ReconnectBackoff { next: INITIAL_BACKOFF }
    }
}

impl ReconnectBackoff {
    /// The delay before the next attempt, in nanoseconds; the following one
    /// doubles, capped at 5 s.
    pub fn next_delay(&mut self) -> (delay: u64)
        requires
            old(self)@ <= MAX_BACKOFF,
        ensures
            delay == old(self)@,
            final(self)@ == next_backoff(old(self)@),
            final(self)@ <= MAX_BACKOFF,
    {
        let delay = self.next;
        self.next = if 2 * self.next < MAX_BACKOFF {
            2 * self.next
        } else {
            MAX_BACKOFF
        };
        delay
    }

    /// Starts over at 100 ms.
    pub fn reset(&mut self)
        ensures
            final(self)@ == INITIAL_BACKOFF,
    {
        self.next = INITIAL_BACKOFF;
    }

    /// A real frame resets the backoff; an empty read does not.
    pub fn observe_frame(&mut self, received: bool)
        ensures
            final(self)@ == if received {
                INITIAL_BACKOFF
            } else {
                old(self)@
            },
    {
        if received {
            self.reset();
        }
    }

    pub fn current(&self) -> (next: u64)
        ensures
            next == self@,
    {
        self.next
    }
}

/// The backoff stays within its bounds: every delay handed out lies between
/// 100 ms and 5 s for a backoff that started at 100 ms.
pub proof fn law_backoff_is_bounded(next: u64)
    requires
        INITIAL_BACKOFF <= next <= MAX_BACKOFF,
    ensures
        INITIAL_BACKOFF <= next_backoff(next) <= MAX_BACKOFF,
{
}

/// Leases are exclusive: once an id is leased, a second acquisition of it is
/// refused until the lease is released, after which it succeeds again.
pub proof fn law_lease_is_exclusive_until_released(held: Set<Seq<char>>, id: Seq<char>)
    ensures
        held.insert(id).contains(id),
        !held.insert(id).remove(id).contains(id),
{
}

/// Camera ids currently leased to a capture path; one id is never leased
/// twice at once.
#[derive(Debug, Default)]
pub struct CameraLeases {
    active: Vec<String>,
}

spec fn ids_of(v: Seq<String>) -> Seq<Seq<char>> {
    v.map_values(|id: String| id@)
}

impl View for CameraLeases {
    type V = Set<Seq<char>>;

    closed spec fn view(&self) -> Set<Seq<char>> {
        self.ids().to_set()
    }
}

impl CameraLeases {
    /// The leased ids in lease order.
    pub closed spec fn ids(&self) -> Seq<Seq<char>> {
        ids_of(self.active@)
    }

    /// No id appears twice.
    pub closed spec fn wf(&self) -> bool {
        forall|i: int, j: int|
            0 <= i < j < self.active@.len() ==> (#[trigger] self.active@[i])@
                != (#[trigger] self.active@[j])@
    }

    pub fn new() -> (l: Self)
        ensures
            l.wf(),
            l@ == Set::<Seq<char>>::empty(),
    {
        let l = CameraLeases { active: Vec::new() };
        assert(l@ =~= Set::<Seq<char>>::empty());
        l
    }

    fn position(&self, id: &str) -> (r: Option<usize>)
        ensures
            r matches Some(i) ==> i < self.active@.len() && self.active@[i as int]@ == id@,
            r is None ==> forall|k: int| 0 <= k < self.active@.len() ==> (#[trigger] self.active@[k])@ != id@,
    {
        let mut i: usize = 0;
        while i < self.active.len()
            invariant
                i <= self.active@.len(),
                forall|k: int| 0 <= k < i ==> (#[trigger] self.active@[k])@ != id@,
            decreases self.active@.len() - i,
        {
            if str_eq(self.active[i].as_str(), id) {
                return Some(i);
            }
            i = i + 1;
        }
        None
    }

    /// Whether `id` is leased.
    pub fn is_leased(&self, id: &str) -> (b: bool)
        ensures
            b == self@.contains(id@),
    {
        let r = self.position(id);
        proof {
            if r is None {
                if self@.contains(id@) {
                    let k = choose|k: int| 0 <= k < self.active@.len() && #[trigger] self.ids()[k] == id@;
                    assert(self.active@[k]@ == id@);
                }
            } else {
                let i = r->0;
                assert(self.ids()[i as int] == id@);
            }
        }
        r.is_some()
    }

    /// Leases `id` when no capture path holds it.
    pub fn try_acquire(&mut self, id: &str) -> (acquired: bool)
        requires
            old(self).wf(),
        ensures
            final(self).wf(),
            acquired == !old(self)@.contains(id@),
            final(self)@ == old(self)@.insert(id@),
    {
        if self.is_leased(id) {
            assert(old(self)@.insert(id@) =~= old(self)@);
            return false;
        }
        let ghost before = self.active@;
        self.active.push(owned(id));
        proof {
            assert forall|k: int| 0 <= k < before.len() implies (#[trigger] before[k])@ != id@ by {
                if before[k]@ == id@ {
                    assert(ids_of(before)[k] == id@);
                }
            }
            assert(self.ids() =~= ids_of(before).push(id@));
            ids_of(before).lemma_push_to_set_commute(id@);
            assert(self@ =~= old(self)@.insert(id@));
        }
        true
    }

    /// Releases the lease of `id`, if held.
    pub fn release(&mut self, id: &str)
        requires
            old(self).wf(),
        ensures
            final(self).wf(),
            final(self)@ == old(self)@.remove(id@),
    {
        match self.position(id) {
            None => {
                proof {
                    if old(self)@.contains(id@) {
                        let k = choose|k: int| 0 <= k < self.active@.len() && #[trigger] self.ids()[k] == id@;
                        assert(self.active@[k]@ == id@);
                    }
                    assert(old(self)@.remove(id@) =~= old(self)@);
                }
            },
            Some(i) => {
                let ghost before = self.active@;
                self.active.remove(i);
                proof {
                    let bv = ids_of(before);
                    let av = self.ids();
                    assert(av =~= bv.remove(i as int));
                    assert forall|x: Seq<char>| av.to_set().contains(x) == bv.to_set().remove(id@).contains(x) by {
                        if av.to_set().contains(x) {
                            let k = choose|k: int| 0 <= k < av.len() && av[k] == x;
                            if k < i {
                                assert(bv[k] == x);
                                assert(before[k]@ != before[i as int]@);
                            } else {
                                assert(bv[k + 1] == x);
                                assert(before[k + 1]@ != before[i as int]@);
                            }
                        }
                        if bv.to_set().remove(id@).contains(x) {
                            let k = choose|k: int| 0 <= k < bv.len() && bv[k] == x;
                            assert(k != i);
                            if k < i {
                                assert(av[k] == x);
                            } else {
                                assert(av[k - 1] == x);
                            }
                        }
                    }
                    assert(self@ =~= old(self)@.remove(id@));
                }
            },
        }
    }
}

/// How often a one-shot capture polls its source, in nanoseconds.
pub const ONE_SHOT_POLL_INTERVAL_NANOS: u64 = 20_000_000;

/// What a one-shot capture does after polling its source once.
#[derive(Debug)]
pub enum OneShotStep {
    /// Return this outcome to the caller.
    Finished(Result<CapturedFrame, CameraManError>),
    /// Sleep this many nanoseconds, then poll again.
    Sleep(u64),
}

/// The timeout message of a one-shot capture that saw no frame.
pub open spec fn no_frame_text(id: Seq<char>, timeout_nanos: u64) -> Seq<char> {
    "camera "@ + id + " delivered no frame within "@ + decimal(
        (timeout_nanos / NANOS_PER_MILLI) as nat,
    ) + "ms"@
}

/// One decision of a one-shot capture, given the poll's outcome and the
/// time left before its deadline. A frame or a source error ends the wait at
/// once, so a named failure is never downgraded to a generic timeout; with
/// no frame and no time left, the capture times out naming the camera;
/// otherwise it sleeps for the poll interval or the remaining time,
/// whichever is shorter.
pub fn first_frame_step(
    poll: Result<Option<CapturedFrame>, CameraManError>,
    remaining_nanos: u64,
    id: &str,
    timeout_nanos: u64,
) -> (step: OneShotStep)
    ensures
        match poll {
            Ok(Some(frame)) => step == OneShotStep::Finished(Ok(frame)),
            Err(e) => step == OneShotStep::Finished(Err(e)),
            Ok(None) => if remaining_nanos == 0 {
                step matches OneShotStep::Finished(Err(CameraManError::Capture { kind, message }))
                    && kind == CaptureErrorKind::Timeout && message@ == no_frame_text(
                    id@,
                    timeout_nanos,
                )
            } else {
                step == OneShotStep::Sleep(
                    if remaining_nanos < ONE_SHOT_POLL_INTERVAL_NANOS {
                        remaining_nanos
                    } else {
                        ONE_SHOT_POLL_INTERVAL_NANOS
                    },
                )
            },
        },
{
    match poll {
        Ok(Some(frame)) => OneShotStep::Finished(Ok(frame)),
        Err(e) => OneShotStep::Finished(Err(e)),
        Ok(None) => {
            if remaining_nanos == 0 {
                let mut out: Vec<char> = Vec::new();
                push_str(&mut out, "camera ");
                push_str(&mut out, id);
                push_str(&mut out, " delivered no frame within ");
                push_decimal(&mut out, timeout_nanos / NANOS_PER_MILLI);
                push_str(&mut out, "ms");
                OneShotStep::Finished(
                    Err(
                        CameraManError::Capture {
                            kind: CaptureErrorKind::Timeout,
                            message: string_from_chars(out.as_slice()),
                        },
                    ),
                )
            } else if remaining_nanos < ONE_SHOT_POLL_INTERVAL_NANOS {
                OneShotStep::Sleep(remaining_nanos)
            } else {
                OneShotStep::Sleep(ONE_SHOT_POLL_INTERVAL_NANOS)
            }
        },
    }
}


/// What a capture worker has published, as its reader sees it at one
/// instant.
#[derive(Debug)]
pub struct CaptureSnapshot {
    /// The phase last published.
    pub phase: WorkerPhase,
    /// Nanoseconds since that phase was published; every published frame
    /// republishes `Streaming`, so while streaming this is the frame gap.
    pub phase_elapsed: u64,
    /// The device's negotiated format while it is open.
    pub negotiated_format: Option<VideoFormat>,
    /// The failure the worker last published.
    pub last_error: Option<CameraManError>,
    /// The newest frame in the slot.
    pub latest: Option<CapturedFrame>,
}

/// Wall time a pre-frame phase has consumed: a lease wait also carries the
/// stall inherited from the worker that still holds the lease.
pub open spec fn pre_frame_elapsed_of(phase: WorkerPhase, elapsed: u64, inherited: u64) -> u64 {
    if phase == WorkerPhase::AwaitingLease {
        if elapsed + inherited > u64::MAX {
            u64::MAX
        } else {
            (elapsed + inherited) as u64
        }
    } else {
        elapsed
    }
}

/// The mid-stream stall of a snapshot: only a negotiated device with no
/// published error can be claimed silent.
pub open spec fn frame_stall_of(snapshot: CaptureSnapshot) -> Option<u64> {
    match snapshot.negotiated_format {
        None => None,
        Some(format) => if snapshot.last_error is Some {
            None
        } else if snapshot.phase == WorkerPhase::Streaming && snapshot.phase_elapsed
            >= frame_gap_budget(format.fps) {
            Some(snapshot.phase_elapsed)
        } else {
            None
        },
    }
}

/// The reader side of a background capture: the camera id, the pre-frame
/// deadline and the stall inherited from a replaced worker. It judges the
/// snapshots the worker publishes.
#[derive(Debug)]
pub struct CaptureReader {
    id: String,
    open_timeout: u64,
    inherited_stall: u64,
}

impl CaptureReader {
    pub closed spec fn spec_id(&self) -> Seq<char> {
        self.id@
    }

    pub closed spec fn spec_open_timeout(&self) -> u64 {
        self.open_timeout
    }

    pub closed spec fn spec_inherited_stall(&self) -> u64 {
        self.inherited_stall
    }

    /// A reader for camera `id` with a pre-frame deadline of
    /// `open_timeout` nanoseconds, replacing a worker stalled for
    /// `inherited_stall` nanoseconds (zero for a fresh camera).
    pub fn new(id: &str, open_timeout: u64, inherited_stall: u64) -> (r: Self)
        ensures
            r.spec_id() == id@,
            r.spec_open_timeout() == open_timeout,
            r.spec_inherited_stall() == inherited_stall,
    {
        CaptureReader { id: owned(id), open_timeout, inherited_stall }
    }

    /// Wall time the current pre-frame phase has consumed.
    pub fn pre_frame_elapsed(&self, phase: WorkerPhase, elapsed: u64) -> (t: u64)
        ensures
            t == pre_frame_elapsed_of(phase, elapsed, self.spec_inherited_stall()),
    {
        if phase == WorkerPhase::AwaitingLease {
            elapsed.saturating_add(self.inherited_stall)
        } else {
            elapsed
        }
    }

    /// How long a streaming worker has gone without a frame past its
    /// deadline, or `None` where the reader cannot honestly claim that: before
    /// the device is negotiated (including reconnect backoff, which clears the
    /// format) and while a published error already names the failure.
    pub fn frame_stall_age(&self, snapshot: &CaptureSnapshot) -> (r: Option<u64>)
        ensures
            r == frame_stall_of(*snapshot),
    {
        let fps = match snapshot.negotiated_format {
            Some(format) => format.fps,
            None => {
                return None;
            },
        };
        if snapshot.last_error.is_some() {
            return None;
        }
        frame_gap_stall_age(snapshot.phase, snapshot.phase_elapsed, frame_gap_timeout(fps))
    }

    /// How long the source has been stalled, before its first frame or
    /// between frames; zero while healthy or within budget.
    pub fn stall_age(&self, snapshot: &CaptureSnapshot) -> (age: u64)
        ensures
            age == if snapshot.phase != WorkerPhase::Streaming && pre_frame_elapsed_of(
                snapshot.phase,
                snapshot.phase_elapsed,
                self.spec_inherited_stall(),
            ) >= self.spec_open_timeout() {
                pre_frame_elapsed_of(
                    snapshot.phase,
                    snapshot.phase_elapsed,
                    self.spec_inherited_stall(),
                )
            } else {
                match frame_stall_of(*snapshot) {
                    Some(stall) => stall,
                    None => 0,
                }
            },
    {
        let elapsed = self.pre_frame_elapsed(snapshot.phase, snapshot.phase_elapsed);
        match open_stall_age(snapshot.phase, elapsed, self.open_timeout) {
            Some(stall) => stall,
            None => match self.frame_stall_age(snapshot) {
                Some(stall) => stall,
                None => 0,
            },
        }
    }

    /// Whether a streaming worker has passed its frame-gap deadline: the
    /// device is open and negotiated but no new frame arrives.
    pub fn frame_gap_exceeded(&self, snapshot: &CaptureSnapshot) -> (b: bool)
        ensures
            b == frame_stall_of(*snapshot) is Some,
    {
        self.frame_stall_age(snapshot).is_some()
    }

    /// The reader's answer for a snapshot. A published error comes first; then
    /// the pre-frame watchdog, then the frame-gap watchdog, each as a timeout
    /// naming the camera; otherwise the newest frame, if any.
    pub fn latest_frame(&self, snapshot: CaptureSnapshot) -> (r: Result<
        Option<CapturedFrame>,
        CameraManError,
    >)
        ensures
            match snapshot.last_error {
                Some(e) => r == Err::<Option<CapturedFrame>, CameraManError>(e),
                None => {
                    let elapsed = pre_frame_elapsed_of(
                        snapshot.phase,
                        snapshot.phase_elapsed,
                        self.spec_inherited_stall(),
                    );
                    if snapshot.phase != WorkerPhase::Streaming && elapsed
                        >= self.spec_open_timeout() {
                        r matches Err(CameraManError::Capture { kind, message }) && kind
                            == CaptureErrorKind::Timeout && message@ == stalled_open_text(
                            self.spec_id(),
                            snapshot.phase,
                            elapsed,
                        )
                    } else {
                        match frame_stall_of(snapshot) {
                            Some(stall) => r matches Err(
                                CameraManError::Capture { kind, message },
                            ) && kind == CaptureErrorKind::Timeout && message@
                                == stalled_frame_text(self.spec_id(), stall),
                            None => r == Ok::<Option<CapturedFrame>, CameraManError>(
                                snapshot.latest,
                            ),
                        }
                    }
                },
            },
    {
        let stall = self.frame_stall_age(&snapshot);
        let elapsed = self.pre_frame_elapsed(snapshot.phase, snapshot.phase_elapsed);
        let CaptureSnapshot { phase, phase_elapsed: _, negotiated_format: _, last_error, latest } =
            snapshot;
        if let Some(error) = last_error {
            return Err(error);
        }
        if let Some(error) = stalled_open_error(self.id.as_str(), phase, elapsed, self.open_timeout) {
            return Err(error);
        }
        if let Some(stall) = stall {
            return Err(stalled_frame_error(self.id.as_str(), stall));
        }
        Ok(latest)
    }
}

/// Prefix of the stable camera ids built from a backend's unique id.
pub const CAMERA_UID_PREFIX: &'static str = "uid:";

/// How a capture backend is asked to open a camera: by enumeration index or
/// by its unique name.
#[derive(Debug, Clone, PartialEq, Eq)]
pub enum CameraLocator {
    Index(u32),
    Name(String),
}

/// Mathematical content of a [`CameraLocator`].
pub enum LocatorModel {
    Index(u32),
    Name(Seq<char>),
}

impl View for CameraLocator {
    type V = LocatorModel;

    open spec fn view(&self) -> LocatorModel {
        match self {
            CameraLocator::Index(i) => LocatorModel::Index(*i),
            CameraLocator::Name(n) => LocatorModel::Name(n@),
        }
    }
}

/// The locator of a camera id: a `uid:` id opens by the unique name after
/// the prefix; an id that reads as a 32-bit number opens by index; any other
/// id opens by name as it is.
pub open spec fn locator_of(id: Seq<char>) -> LocatorModel {
    if id.len() >= CAMERA_UID_PREFIX@.len() && id.take(CAMERA_UID_PREFIX@.len() as int)
        == CAMERA_UID_PREFIX@ {
        LocatorModel::Name(id.skip(CAMERA_UID_PREFIX@.len() as int))
    } else {
        match parse_u64(id) {
            Some(n) => if n <= u32::MAX {
                LocatorModel::Index(n as u32)
            } else {
                LocatorModel::Name(id)
            },
            None => LocatorModel::Name(id),
        }
    }
}

/// The locator a camera id opens through.
pub fn camera_index_from_id(id: &str) -> (l: CameraLocator)
    ensures
        l@ == locator_of(id@),
{
    proof {
        reveal_strlit("uid:");
    }
    let chars = str_chars(id);
    let prefix = str_chars(CAMERA_UID_PREFIX);
    if crate::text::chars_occur_at(chars.as_slice(), prefix.as_slice(), 0) {
        assert(chars@.subrange(0, 4) == chars@.take(4));
        let rest = crate::text::chars_slice(chars.as_slice(), 4, chars.len());
        assert(rest@ =~= id@.skip(4));
        return CameraLocator::Name(string_from_chars(rest.as_slice()));
    }
    match crate::text::parse_u64_chars(chars.as_slice()) {
        Some(n) => if n <= 0xffff_ffff {
            CameraLocator::Index(n as u32)
        } else {
            CameraLocator::Name(owned(id))
        },
        None => CameraLocator::Name(owned(id)),
    }
}

impl CameraLocator {
    /// The locator spelled as text: the index in decimal, or the name.
    pub fn as_string(&self) -> (s: String)
        ensures
            s@ == match self@ {
                LocatorModel::Index(i) => decimal(i as nat),
                LocatorModel::Name(n) => n,
            },
    {
        match self {
            CameraLocator::Index(i) => crate::text::decimal_string(*i as u64),
            CameraLocator::Name(n) => n.clone(),
        }
    }
}

/// The device a backend reports: with a usable unique id the camera gets a
/// stable `uid:` id and keeps its enumeration index as an alias; without
/// one it is known by the index alone.
pub fn camera_device_from_parts(legacy_id: &str, unique_id: &str, name: &str) -> (d: CameraDevice)
    ensures
        d.name@ == name@,
        trim(unique_id@).len() == 0 ==> d.id@ == legacy_id@ && d.aliases@.len() == 0,
        trim(unique_id@).len() > 0 ==> d.id@ == CAMERA_UID_PREFIX@ + unique_id@
            && d.aliases@.len() == 1 && d.aliases@[0]@ == legacy_id@,
{
    let chars = str_chars(unique_id);
    let (start, end) = trim_bounds(chars.as_slice());
    if start == end {
        return CameraDevice::new(legacy_id, name);
    }
    let mut id: Vec<char> = Vec::new();
    push_str(&mut id, CAMERA_UID_PREFIX);
    push_str(&mut id, unique_id);
    let id_text = string_from_chars(id.as_slice());
    let aliases = vec![owned(legacy_id)];
    CameraDevice::with_aliases(id_text.as_str(), name, aliases)
}

} // verus!
