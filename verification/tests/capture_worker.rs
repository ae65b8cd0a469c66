use camera_man::capture::WorkerPhase;
use camera_man::capture_worker::{
    CaptureWorker, WorkerCommand, WorkerEvent, WorkerSlots, READ_RETRY_DELAY_NANOS,
};
use camera_man::config::VideoFormat;
use camera_man::error::CameraManError;
use camera_man::frame::{CapturedFrame, Frame, FrameMetadata, PixelFormat};

const MILLI: u64 = 1_000_000;

const TEST_TARGET: VideoFormat = VideoFormat {
    width: 1280,
    height: 720,
    fps: 30,
    pixel_format: PixelFormat::Bgra8,
};

fn frame(sequence: u64) -> CapturedFrame {
    let frame = Frame::new_checked(2, 2, PixelFormat::Bgra8, vec![0; 16], None, None).unwrap();
    CapturedFrame::new(frame, FrameMetadata::new("camera-0", sequence))
}

#[test]
fn a_worker_publishes_the_opening_phase_before_calling_the_backend() {
    let mut worker = CaptureWorker::new();
    let mut slots = WorkerSlots::new();
    let step = worker.step(&mut slots, WorkerEvent::LeaseAcquired, false);
    assert_eq!(step.command, WorkerCommand::Open);
    assert_eq!(step.published, Some(WorkerPhase::Opening));
    assert_eq!(slots.phase, WorkerPhase::Opening);
}

#[test]
fn a_stopped_worker_does_not_open_the_camera_again_after_its_in_flight_open_returns() {
    let mut worker = CaptureWorker::new();
    let mut slots = WorkerSlots::new();
    worker.step(&mut slots, WorkerEvent::LeaseAcquired, false);
    let step = worker.step(&mut slots, WorkerEvent::Opened(TEST_TARGET), true);
    assert_eq!(step.command, WorkerCommand::Exit);
    assert_eq!(slots.negotiated_format, None);
    assert!(!worker.accepts(&WorkerEvent::Slept(true)));
}

#[test]
fn a_panicking_open_is_reported_instead_of_leaving_the_worker_silently_dead() {
    let mut worker = CaptureWorker::new();
    let mut slots = WorkerSlots::new();
    worker.step(&mut slots, WorkerEvent::LeaseAcquired, false);
    let step = worker.step(
        &mut slots,
        WorkerEvent::OpenPanicked(String::from("backend open exploded")),
        false,
    );
    assert_eq!(step.command, WorkerCommand::Exit);
    let error = slots
        .last_error
        .expect("a panicking open must publish an error, not stay silent");
    assert!(error.diagnostic_message().contains("backend open exploded"));
    assert!(error.diagnostic_message().contains("camera open panicked"));
}

#[test]
fn a_failed_open_backs_off_with_growing_delays() {
    let mut worker = CaptureWorker::new();
    let mut slots = WorkerSlots::new();
    worker.step(&mut slots, WorkerEvent::LeaseAcquired, false);
    let first = worker.step(
        &mut slots,
        WorkerEvent::OpenFailed(CameraManError::capture("no camera")),
        false,
    );
    assert_eq!(first.command, WorkerCommand::Sleep(100 * MILLI));
    assert!(slots.last_error.is_some());
    let reopen = worker.step(&mut slots, WorkerEvent::Slept(true), false);
    assert_eq!(reopen.command, WorkerCommand::Open);
    let second = worker.step(
        &mut slots,
        WorkerEvent::OpenFailed(CameraManError::capture("no camera")),
        false,
    );
    assert_eq!(second.command, WorkerCommand::Sleep(200 * MILLI));
    assert_eq!(
        worker.step(&mut slots, WorkerEvent::Slept(false), false).command,
        WorkerCommand::Exit
    );
}

#[test]
fn a_real_frame_publishes_streaming_and_clears_the_error() {
    let mut worker = CaptureWorker::new();
    let mut slots = WorkerSlots::new();
    worker.step(&mut slots, WorkerEvent::LeaseAcquired, false);
    slots.last_error = Some(CameraManError::capture("earlier failure"));
    let opened = worker.step(&mut slots, WorkerEvent::Opened(TEST_TARGET), false);
    assert_eq!(opened.command, WorkerCommand::Read);
    assert_eq!(opened.published, Some(WorkerPhase::AwaitingFirstFrame));
    assert_eq!(slots.negotiated_format, Some(TEST_TARGET));
    // A successful open is not recovery yet.
    assert!(slots.last_error.is_some());

    let empty = worker.step(&mut slots, WorkerEvent::FrameRead(None), false);
    assert_eq!(empty.published, None);
    assert_eq!(slots.phase, WorkerPhase::AwaitingFirstFrame);
    assert!(slots.last_error.is_none());

    let read = worker.step(&mut slots, WorkerEvent::FrameRead(Some(frame(1))), false);
    assert_eq!(read.command, WorkerCommand::Read);
    assert_eq!(read.published, Some(WorkerPhase::Streaming));
    assert_eq!(slots.phase, WorkerPhase::Streaming);
    assert_eq!(slots.latest.as_ref().map(|f| f.metadata().sequence), Some(1));
}

#[test]
fn three_failed_reads_close_the_session_and_reopen() {
    let mut worker = CaptureWorker::new();
    let mut slots = WorkerSlots::new();
    worker.step(&mut slots, WorkerEvent::LeaseAcquired, false);
    worker.step(&mut slots, WorkerEvent::Opened(TEST_TARGET), false);
    for _ in 0..2 {
        let retry = worker.step(
            &mut slots,
            WorkerEvent::ReadFailed(CameraManError::capture("read failed")),
            false,
        );
        assert_eq!(retry.command, WorkerCommand::Sleep(READ_RETRY_DELAY_NANOS));
        assert_eq!(slots.negotiated_format, Some(TEST_TARGET));
        assert_eq!(worker.step(&mut slots, WorkerEvent::Slept(true), false).command, WorkerCommand::Read);
    }
    let closed = worker.step(
        &mut slots,
        WorkerEvent::ReadFailed(CameraManError::capture("read failed")),
        false,
    );
    assert_eq!(closed.command, WorkerCommand::Sleep(100 * MILLI));
    assert_eq!(slots.negotiated_format, None);
    let reopen = worker.step(&mut slots, WorkerEvent::Slept(true), false);
    assert_eq!(reopen.command, WorkerCommand::Open);
    assert_eq!(slots.phase, WorkerPhase::Opening);
}

#[test]
fn a_panicking_read_is_published_and_closes_the_session() {
    let mut worker = CaptureWorker::new();
    let mut slots = WorkerSlots::new();
    worker.step(&mut slots, WorkerEvent::LeaseAcquired, false);
    worker.step(&mut slots, WorkerEvent::Opened(TEST_TARGET), false);
    let step = worker.step(&mut slots, WorkerEvent::ReadPanicked(String::from("mutex")), true);
    assert_eq!(step.command, WorkerCommand::Exit);
    assert_eq!(slots.negotiated_format, None);
    assert!(slots
        .last_error
        .unwrap()
        .diagnostic_message()
        .contains("capture worker panicked: mutex"));
}
