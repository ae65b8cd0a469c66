//! The decisions of a background capture worker, one step at a time. The
//! caller performs each command (open the device, read a frame, sleep, exit)
//! and reports what happened; the worker publishes its phase, error,
//! negotiated format and newest frame to the slots its reader watches.
use vstd::prelude::*;

use crate::capture::{next_backoff, ReconnectBackoff, WorkerPhase, INITIAL_BACKOFF, MAX_BACKOFF};
use crate::config::VideoFormat;
use crate::error::{classify_message, CameraManError};
use crate::frame::CapturedFrame;
use crate::text::{push_str, string_from_chars};

verus! {

/// Pause before reading again after a failed read, in nanoseconds.
pub const READ_RETRY_DELAY_NANOS: u64 = 50_000_000;

/// Consecutive failed reads after which the device is closed and reopened.
pub const MAX_READ_FAILURES: u8 = 3;

/// Where the worker stands, waiting for the outcome of its last command.
#[derive(Debug, Clone, Copy, PartialEq, Eq, Structural)]
pub enum WorkerPoint {
    /// Waiting for this camera id's lease.
    AwaitingLease,
    /// Inside the backend open call.
    Opening,
    /// Inside a frame read.
    Reading,
    /// Sleeping before the next open.
    RetryingOpen,
    /// Sleeping before the next read.
    RetryingRead,
    /// Done; the lease is released.
    Exited,
}

/// What happened to the worker's last command.
#[derive(Debug)]
pub enum WorkerEvent {
    /// The lease for the camera id was acquired.
    LeaseAcquired,
    /// The device opened with this negotiated format.
    Opened(VideoFormat),
    /// The open returned an error.
    OpenFailed(CameraManError),
    /// The open panicked with this message.
    OpenPanicked(String),
    /// A read returned this frame, or none yet.
    FrameRead(Option<CapturedFrame>),
    /// A read returned an error.
    ReadFailed(CameraManError),
    /// A read panicked with this message.
    ReadPanicked(String),
    /// A sleep ended; `false` when it was cut short by a stop request.
    Slept(bool),
}

/// What the caller does next.
#[derive(Debug, Clone, Copy, PartialEq, Eq, Structural)]
pub enum WorkerCommand {
    /// Open the device.
    Open,
    /// Read one frame.
    Read,
    /// Sleep this many nanoseconds unless stopped.
    Sleep(u64),
    /// Stop and release the lease.
    Exit,
}

/// The slots a worker publishes and its reader observes.
#[derive(Debug)]
pub struct WorkerSlots {
    pub phase: WorkerPhase,
    pub last_error: Option<CameraManError>,
    pub negotiated_format: Option<VideoFormat>,
    pub latest: Option<CapturedFrame>,
}

impl WorkerSlots {
    /// Slots of a worker that has not started: waiting for its lease,
    /// nothing published.
    pub fn new() -> (s: Self)
        ensures
            s.phase == WorkerPhase::AwaitingLease,
            s.last_error is None,
            s.negotiated_format is None,
            s.latest is None,
    {
        WorkerSlots {
            phase: WorkerPhase::AwaitingLease,
            last_error: None,
            negotiated_format: None,
            latest: None,
        }
    }
}

/// The command of one step, and the phase it republished, which restarts
/// the reader's phase clock.
#[derive(Debug, Clone, Copy, PartialEq, Eq, Structural)]
pub struct WorkerStep {
    pub command: WorkerCommand,
    pub published: Option<WorkerPhase>,
}

/// A capture worker between two pieces of outside work.
#[derive(Debug)]
pub struct CaptureWorker {
    point: WorkerPoint,
    failure_streak: u8,
    backoff: ReconnectBackoff,
}

/// The message a panicking open leaves.
pub open spec fn open_panic_text(message: Seq<char>) -> Seq<char> {
    "camera open panicked: "@ + message
}

/// The message a panicking read leaves.
pub open spec fn read_panic_text(message: Seq<char>) -> Seq<char> {
    "capture worker panicked: "@ + message
}

/// `e` is the capture error built from `text`.
pub open spec fn capture_error_of(e: Option<CameraManError>, text: Seq<char>) -> bool {
    e matches Some(CameraManError::Capture { kind, message }) && kind == classify_message(text)
        && message@ == text
}

/// The worker accepts `event` at `point`.
pub open spec fn accepts(point: WorkerPoint, event: WorkerEvent) -> bool {
    match point {
        WorkerPoint::AwaitingLease => event is LeaseAcquired,
        WorkerPoint::Opening => event is Opened || event is OpenFailed || event is OpenPanicked,
        WorkerPoint::Reading => event is FrameRead || event is ReadFailed || event is ReadPanicked,
        WorkerPoint::RetryingOpen | WorkerPoint::RetryingRead => event is Slept,
        WorkerPoint::Exited => false,
    }
}

fn panic_error(prefix: &str, message: &str) -> (e: CameraManError)
    ensures
        capture_error_of(Some(e), prefix@ + message@),
{
    let mut out: Vec<char> = Vec::new();
    push_str(&mut out, prefix);
    push_str(&mut out, message);
    let text = string_from_chars(out.as_slice());
    CameraManError::capture(text.as_str())
}

impl CaptureWorker {
    pub closed spec fn point(&self) -> WorkerPoint {
        self.point
    }

    pub closed spec fn failure_streak(&self) -> u8 {
        self.failure_streak
    }

    /// The next reconnect delay, in nanoseconds.
    pub closed spec fn backoff(&self) -> u64 {
        self.backoff@
    }

    /// The streak stays below the reopen threshold and the backoff within
    /// its bounds.
    pub open spec fn wf(&self) -> bool {
        &&& self.failure_streak() < MAX_READ_FAILURES
        &&& INITIAL_BACKOFF <= self.backoff() <= MAX_BACKOFF
    }

    /// A worker about to wait for its camera's lease.
    pub fn new() -> (w: Self)
        ensures
            w.wf(),
            w.point() == WorkerPoint::AwaitingLease,
            w.failure_streak() == 0,
            w.backoff() == INITIAL_BACKOFF,
    {
        CaptureWorker {
            point: WorkerPoint::AwaitingLease,
            failure_streak: 0,
            backoff: ReconnectBackoff::default(),
        }
    }

    /// Whether the worker expects `event` now.
    pub fn accepts(&self, event: &WorkerEvent) -> (b: bool)
        ensures
            b == accepts(self.point(), *event),
    {
        match self.point {
            WorkerPoint::AwaitingLease => matches!(event, WorkerEvent::LeaseAcquired),
            WorkerPoint::Opening => matches!(
                event,
                WorkerEvent::Opened(_) | WorkerEvent::OpenFailed(_) | WorkerEvent::OpenPanicked(_)
            ),
            WorkerPoint::Reading => matches!(
                event,
                WorkerEvent::FrameRead(_) | WorkerEvent::ReadFailed(_) | WorkerEvent::ReadPanicked(_)
            ),
            WorkerPoint::RetryingOpen | WorkerPoint::RetryingRead => matches!(
                event,
                WorkerEvent::Slept(_)
            ),
            WorkerPoint::Exited => false,
        }
    }

    /// The top of the open loop: stop, or publish `Opening` and open.
    fn open_again(&mut self, slots: &mut WorkerSlots, stop: bool) -> (s: WorkerStep)
        requires
            old(self).wf(),
        ensures
            final(self).wf(),
            final(self).failure_streak() == old(self).failure_streak(),
            final(self).backoff() == old(self).backoff(),
            final(slots).last_error == old(slots).last_error,
            final(slots).negotiated_format == old(slots).negotiated_format,
            final(slots).latest == old(slots).latest,
            stop ==> s == (WorkerStep { command: WorkerCommand::Exit, published: None })
                && final(self).point() == WorkerPoint::Exited && final(slots).phase == old(slots).phase,
            !stop ==> s == (WorkerStep {
                command: WorkerCommand::Open,
                published: Some(WorkerPhase::Opening),
            }) && final(self).point() == WorkerPoint::Opening && final(slots).phase
                == WorkerPhase::Opening,
    {
        if stop {
            self.point = WorkerPoint::Exited;
            return WorkerStep { command: WorkerCommand::Exit, published: None };
        }
        slots.phase = WorkerPhase::Opening;
        self.point = WorkerPoint::Opening;
        WorkerStep { command: WorkerCommand::Open, published: Some(WorkerPhase::Opening) }
    }

    /// The end of a streaming session: the device is closed, so the format
    /// is withdrawn; then stop, or back off before reopening.
    fn close_session(&mut self, slots: &mut WorkerSlots, stop: bool) -> (s: WorkerStep)
        requires
            old(self).wf(),
        ensures
            final(self).wf(),
            final(self).failure_streak() == old(self).failure_streak(),
            final(slots).phase == old(slots).phase,
            final(slots).last_error == old(slots).last_error,
            final(slots).negotiated_format is None,
            final(slots).latest == old(slots).latest,
            s.published is None,
            stop ==> s.command == WorkerCommand::Exit && final(self).point() == WorkerPoint::Exited
                && final(self).backoff() == old(self).backoff(),
            !stop ==> s.command == WorkerCommand::Sleep(old(self).backoff()) && final(self).point()
                == WorkerPoint::RetryingOpen && final(self).backoff() == next_backoff(
                old(self).backoff(),
            ),
    {
        slots.negotiated_format = None;
        if stop {
            self.point = WorkerPoint::Exited;
            return WorkerStep { command: WorkerCommand::Exit, published: None };
        }
        let delay = self.backoff.next_delay();
        self.point = WorkerPoint::RetryingOpen;
        WorkerStep { command: WorkerCommand::Sleep(delay), published: None }
    }

    /// The top of the read loop: stop (closing the session), or read.
    fn read_again(&mut self, slots: &mut WorkerSlots, stop: bool) -> (s: WorkerStep)
        requires
            old(self).wf(),
        ensures
            final(self).wf(),
            final(self).failure_streak() == old(self).failure_streak(),
            final(self).backoff() == old(self).backoff(),
            final(slots).phase == old(slots).phase,
            final(slots).last_error == old(slots).last_error,
            final(slots).latest == old(slots).latest,
            s.published is None,
            stop ==> s.command == WorkerCommand::Exit && final(self).point() == WorkerPoint::Exited
                && final(slots).negotiated_format is None,
            !stop ==> s.command == WorkerCommand::Read && final(self).point() == WorkerPoint::Reading
                && final(slots).negotiated_format == old(slots).negotiated_format,
    {
        if stop {
            return self.close_session(slots, true);
        }
        self.point = WorkerPoint::Reading;
        WorkerStep { command: WorkerCommand::Read, published: None }
    }

    /// One decision: applies `event`, the outcome of the last command, with
    /// `stop` the stop request as it stands now, and returns the next
    /// command.
    ///
    /// - A lease, or a completed sleep before reopening, leads to a new open
    ///   (publishing `Opening`) unless stopped.
    /// - A panicking open is published as a capture error and ends the
    ///   worker, keeping no retry that would re-enter the same panic.
    /// - A failed open is published, the format withdrawn, and the worker
    ///   backs off.
    /// - A successful open publishes `AwaitingFirstFrame` and the format,
    ///   keeps any earlier error until a real frame arrives, and starts
    ///   reading unless stopped.
    /// - A read that returns clears the error and the failure streak, stores
    ///   the frame (publishing `Streaming` when there is one; a real frame
    ///   also resets the backoff) and reads on.
    /// - A failed read is published; the third in a row closes the session,
    ///   otherwise the worker pauses briefly and reads again. A panicking
    ///   read is published and closes the session.
    /// - A sleep cut short by a stop request ends the worker.
    pub fn step(&mut self, slots: &mut WorkerSlots, event: WorkerEvent, stop: bool) -> (s:
        WorkerStep)
        requires
            old(self).wf(),
            accepts(old(self).point(), event),
        ensures
            final(self).wf(),
            s.command == WorkerCommand::Open ==> s.published == Some(WorkerPhase::Opening)
                && final(slots).phase == WorkerPhase::Opening,
            stop ==> s.command != WorkerCommand::Open && s.command != WorkerCommand::Read,
            s.command == WorkerCommand::Exit <==> final(self).point() == WorkerPoint::Exited,
            match event {
                WorkerEvent::LeaseAcquired => {
                    &&& final(slots).last_error == old(slots).last_error
                    &&& final(slots).negotiated_format == old(slots).negotiated_format
                    &&& final(slots).latest == old(slots).latest
                    &&& final(self).backoff() == old(self).backoff()
                    &&& if stop {
                        s == (WorkerStep { command: WorkerCommand::Exit, published: None })
                            && final(self).point() == WorkerPoint::Exited
                    } else {
                        s == (WorkerStep {
                            command: WorkerCommand::Open,
                            published: Some(WorkerPhase::Opening),
                        }) && final(self).point() == WorkerPoint::Opening && final(slots).phase
                            == WorkerPhase::Opening
                    }
                },
                WorkerEvent::OpenPanicked(message) => {
                    &&& s == (WorkerStep { command: WorkerCommand::Exit, published: None })
                    &&& final(self).point() == WorkerPoint::Exited
                    &&& capture_error_of(final(slots).last_error, open_panic_text(message@))
                    &&& final(slots).phase == old(slots).phase
                    &&& final(slots).negotiated_format == old(slots).negotiated_format
                    &&& final(slots).latest == old(slots).latest
                },
                WorkerEvent::OpenFailed(e) => {
                    &&& s == (WorkerStep {
                        command: WorkerCommand::Sleep(old(self).backoff()),
                        published: None,
                    })
                    &&& final(self).point() == WorkerPoint::RetryingOpen
                    &&& final(self).backoff() == next_backoff(old(self).backoff())
                    &&& final(slots).last_error == Some(e)
                    &&& final(slots).negotiated_format is None
                    &&& final(slots).phase == old(slots).phase
                    &&& final(slots).latest == old(slots).latest
                },
                WorkerEvent::Opened(format) => {
                    &&& s.published == Some(WorkerPhase::AwaitingFirstFrame)
                    &&& final(slots).phase == WorkerPhase::AwaitingFirstFrame
                    &&& final(slots).last_error == old(slots).last_error
                    &&& final(slots).latest == old(slots).latest
                    &&& final(self).failure_streak() == 0
                    &&& final(self).backoff() == old(self).backoff()
                    &&& if stop {
                        s.command == WorkerCommand::Exit && final(self).point()
                            == WorkerPoint::Exited && final(slots).negotiated_format is None
                    } else {
                        s.command == WorkerCommand::Read && final(self).point()
                            == WorkerPoint::Reading && final(slots).negotiated_format == Some(
                            format,
                        )
                    }
                },
                WorkerEvent::FrameRead(frame) => {
                    &&& final(slots).latest == frame
                    &&& final(slots).last_error is None
                    &&& final(self).failure_streak() == 0
                    &&& final(self).backoff() == if frame is Some {
                        INITIAL_BACKOFF
                    } else {
                        old(self).backoff()
                    }
                    &&& if frame is Some {
                        s.published == Some(WorkerPhase::Streaming) && final(slots).phase
                            == WorkerPhase::Streaming
                    } else {
                        s.published is None && final(slots).phase == old(slots).phase
                    }
                    &&& if stop {
                        s.command == WorkerCommand::Exit && final(self).point()
                            == WorkerPoint::Exited && final(slots).negotiated_format is None
                    } else {
                        s.command == WorkerCommand::Read && final(self).point()
                            == WorkerPoint::Reading && final(slots).negotiated_format == old(slots).negotiated_format
                    }
                },
                WorkerEvent::ReadFailed(e) => {
                    &&& final(slots).last_error == Some(e)
                    &&& final(slots).phase == old(slots).phase
                    &&& final(slots).latest == old(slots).latest
                    &&& s.published is None
                    &&& if old(self).failure_streak() + 1 < MAX_READ_FAILURES {
                        &&& s.command == WorkerCommand::Sleep(READ_RETRY_DELAY_NANOS)
                        &&& final(self).point() == WorkerPoint::RetryingRead
                        &&& final(self).failure_streak() == old(self).failure_streak() + 1
                        &&& final(self).backoff() == old(self).backoff()
                        &&& final(slots).negotiated_format == old(slots).negotiated_format
                    } else {
                        &&& final(slots).negotiated_format is None
                        &&& if stop {
                            s.command == WorkerCommand::Exit && final(self).point()
                                == WorkerPoint::Exited
                        } else {
                            s.command == WorkerCommand::Sleep(old(self).backoff()) && final(self).point() == WorkerPoint::RetryingOpen && final(self).backoff()
                                == next_backoff(old(self).backoff())
                        }
                    }
                },
                WorkerEvent::ReadPanicked(message) => {
                    &&& capture_error_of(final(slots).last_error, read_panic_text(message@))
                    &&& final(slots).phase == old(slots).phase
                    &&& final(slots).latest == old(slots).latest
                    &&& final(slots).negotiated_format is None
                    &&& s.published is None
                    &&& if stop {
                        s.command == WorkerCommand::Exit && final(self).point()
                            == WorkerPoint::Exited
                    } else {
                        s.command == WorkerCommand::Sleep(old(self).backoff()) && final(self).point() == WorkerPoint::RetryingOpen && final(self).backoff()
                            == next_backoff(old(self).backoff())
                    }
                },
                WorkerEvent::Slept(completed) => {
                    &&& final(slots).last_error == old(slots).last_error
                    &&& final(slots).latest == old(slots).latest
                    &&& final(self).backoff() == old(self).backoff()
                    &&& if !completed {
                        &&& s == (WorkerStep { command: WorkerCommand::Exit, published: None })
                        &&& final(self).point() == WorkerPoint::Exited
                        &&& final(slots).phase == old(slots).phase
                        &&& final(slots).negotiated_format == old(slots).negotiated_format
                    } else if old(self).point() == WorkerPoint::RetryingOpen {
                        &&& final(slots).negotiated_format == old(slots).negotiated_format
                        &&& if stop {
                            s == (WorkerStep { command: WorkerCommand::Exit, published: None })
                                && final(self).point() == WorkerPoint::Exited && final(slots).phase == old(slots).phase
                        } else {
                            s == (WorkerStep {
                                command: WorkerCommand::Open,
                                published: Some(WorkerPhase::Opening),
                            }) && final(self).point() == WorkerPoint::Opening && final(slots).phase == WorkerPhase::Opening
                        }
                    } else {
                        &&& final(slots).phase == old(slots).phase
                        &&& s.published is None
                        &&& if stop {
                            s.command == WorkerCommand::Exit && final(self).point()
                                == WorkerPoint::Exited && final(slots).negotiated_format is None
                        } else {
                            s.command == WorkerCommand::Read && final(self).point()
                                == WorkerPoint::Reading && final(slots).negotiated_format == old(slots).negotiated_format
                        }
                    }
                },
            },
    {
        match event {
            WorkerEvent::LeaseAcquired => self.open_again(slots, stop),
            WorkerEvent::OpenPanicked(message) => {
                slots.last_error = Some(panic_error("camera open panicked: ", message.as_str()));
                self.point = WorkerPoint::Exited;
                WorkerStep { command: WorkerCommand::Exit, published: None }
            },
            WorkerEvent::OpenFailed(e) => {
                slots.last_error = Some(e);
                slots.negotiated_format = None;
                let delay = self.backoff.next_delay();
                self.point = WorkerPoint::RetryingOpen;
                WorkerStep { command: WorkerCommand::Sleep(delay), published: None }
            },
            WorkerEvent::Opened(format) => {
                slots.phase = WorkerPhase::AwaitingFirstFrame;
                slots.negotiated_format = Some(format);
                self.failure_streak = 0;
                let next = self.read_again(slots, stop);
                WorkerStep { command: next.command, published: Some(WorkerPhase::AwaitingFirstFrame) }
            },
            WorkerEvent::FrameRead(frame) => {
                self.failure_streak = 0;
                let received = frame.is_some();
                self.backoff.observe_frame(received);
                if received {
                    slots.phase = WorkerPhase::Streaming;
                }
                slots.latest = frame;
                slots.last_error = None;
                let next = self.read_again(slots, stop);
                WorkerStep {
                    command: next.command,
                    published: if received {
                        Some(WorkerPhase::Streaming)
                    } else {
                        None
                    },
                }
            },
            WorkerEvent::ReadFailed(e) => {
                slots.last_error = Some(e);
                if self.failure_streak + 1 < MAX_READ_FAILURES {
                    self.failure_streak = self.failure_streak + 1;
                    self.point = WorkerPoint::RetryingRead;
                    WorkerStep { command: WorkerCommand::Sleep(READ_RETRY_DELAY_NANOS), published: None }
                } else {
                    self.failure_streak = 0;
                    self.close_session(slots, stop)
                }
            },
            WorkerEvent::ReadPanicked(message) => {
                slots.last_error = Some(panic_error("capture worker panicked: ", message.as_str()));
                self.failure_streak = 0;
                self.close_session(slots, stop)
            },
            WorkerEvent::Slept(completed) => {
                if !completed {
                    self.point = WorkerPoint::Exited;
                    return WorkerStep { command: WorkerCommand::Exit, published: None };
                }
                if self.point == WorkerPoint::RetryingOpen {
                    self.open_again(slots, stop)
                } else {
                    self.read_again(slots, stop)
                }
            },
        }
    }
}

} // verus!
