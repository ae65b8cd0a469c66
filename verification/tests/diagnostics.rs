use camera_man::diagnostics::{
    percentile_index, redact_path, DiagnosticEvent, DiagnosticEventKind, DiagnosticEventRing,
    DiagnosticFeedbackGate, Diagnostics, DropReason, LatencyHistograms, PipelineStage,
    EVENT_RING_CAPACITY,
};

#[test]
fn bounded_histogram_reports_requested_percentiles() {
    let mut histograms = LatencyHistograms::default();
    for value in 1..=100 {
        histograms.record(PipelineStage::Compose, value);
    }
    let compose = histograms
        .snapshot()
        .into_iter()
        .find(|snapshot| snapshot.stage == PipelineStage::Compose)
        .unwrap();
    assert_eq!(compose.samples, 100);
    assert_eq!(compose.p50_nanos, 50);
    assert_eq!(compose.p95_nanos, 95);
    assert_eq!(compose.p99_nanos, 99);
    assert_eq!(compose.max_nanos, 100);
}

#[test]
fn event_ring_keeps_only_the_newest_bounded_events() {
    let mut ring = DiagnosticEventRing::default();
    for sequence in 0..EVENT_RING_CAPACITY as u64 + 10 {
        ring.record(DiagnosticEvent {
            monotonic_timestamp_nanos: sequence,
            kind: DiagnosticEventKind::Drop,
            drop_reason: Some(DropReason::Late),
            frame_sequence: Some(sequence),
            value: 1,
        });
    }
    let events = ring.snapshot();
    assert_eq!(events.len(), EVENT_RING_CAPACITY);
    assert_eq!(events.first().unwrap().frame_sequence, Some(10));
}

#[test]
fn feedback_gate_limits_duplicate_events_without_losing_counters() {
    let mut gate = DiagnosticFeedbackGate::new(100);
    assert!(gate.should_emit(DropReason::Late.index(), 1_000));
    assert!(!gate.should_emit(DropReason::Late.index(), 1_050));
    assert!(gate.should_emit(DropReason::Late.index(), 1_100));
    assert!(gate.should_emit(DropReason::Stale.index(), 1_050));
}

#[test]
fn stage_names_are_stable() {
    assert_eq!(
        PipelineStage::all().map(PipelineStage::name),
        [
            "capture",
            "compose",
            "publish",
            "consume",
            "pixel_buffer",
            "send_sample"
        ]
    );
}

#[test]
fn histogram_of_unsorted_samples_sorts_before_ranking() {
    let mut histograms = LatencyHistograms::default();
    for value in [9u64, 3, 7, 1, 5] {
        histograms.record(PipelineStage::Capture, value);
    }
    let capture = histograms.snapshot()[0];
    assert_eq!(capture.stage, PipelineStage::Capture);
    assert_eq!(capture.samples, 5);
    assert_eq!(capture.p50_nanos, 5);
    assert_eq!(capture.p95_nanos, 7);
    assert_eq!(capture.p99_nanos, 7);
    assert_eq!(capture.max_nanos, 9);
    let empty = histograms.snapshot()[1];
    assert_eq!(empty.samples, 0);
    assert_eq!(empty.p50_nanos, 0);
    assert_eq!(empty.max_nanos, 0);
}

#[test]
fn latency_window_keeps_only_the_newest_samples() {
    let mut histograms = LatencyHistograms::default();
    for value in 0..3000u64 {
        histograms.record(PipelineStage::Publish, value);
    }
    let publish = histograms.snapshot()[2];
    assert_eq!(publish.samples, 2048);
    assert_eq!(publish.max_nanos, 2999);
    assert_eq!(publish.p50_nanos, 952 + 1023);
}

#[test]
fn percentile_index_is_none_only_without_samples() {
    assert_eq!(percentile_index(0, 50), None);
    assert_eq!(percentile_index(1, 99), Some(0));
    assert_eq!(percentile_index(100, 50), Some(49));
    assert_eq!(percentile_index(100, 100), Some(99));
    assert_eq!(percentile_index(100, 250), Some(99));
}

#[test]
fn redaction_keeps_only_the_file_name() {
    assert_eq!(
        redact_path("/Users/alice/Private/CameraMan.app"),
        "<redacted>/CameraMan.app"
    );
    assert_eq!(redact_path("/"), "<redacted>");
    assert_eq!(redact_path("/tmp/.."), "<redacted>");
    assert_eq!(redact_path("relative/dir/"), "<redacted>/dir");
}

#[test]
fn drops_always_count_but_events_are_rate_limited() {
    let mut diagnostics = Diagnostics::new();
    diagnostics.record_drop_at(DropReason::Late, 2, Some(7), 1_000);
    diagnostics.record_drop_at(DropReason::Late, 3, Some(8), 1_050);
    diagnostics.record_drop_at(DropReason::Late, 0, Some(9), 500_000_000);
    let drops = diagnostics.drop_counters().snapshot();
    assert_eq!(drops.late, 5);
    assert_eq!(drops.stale, 0);
    let events = diagnostics.diagnostic_events().snapshot();
    assert_eq!(events.len(), 1);
    assert_eq!(events[0].frame_sequence, Some(7));
    assert_eq!(events[0].value, 2);
    diagnostics.record_drop_at(DropReason::Late, 1, None, 200_001_000);
    assert_eq!(diagnostics.diagnostic_events().snapshot().len(), 2);
}

#[test]
fn report_lists_formats_and_hides_directories() {
    let mut diagnostics = Diagnostics::new();
    diagnostics.record_output_frame();
    diagnostics.record_output_frame();
    let report = diagnostics.snapshot_at(
        &[camera_man::config::VideoFormat::hd_1080p_bgra()],
        &["/Users/alice/Private/CameraMan.app"],
        camera_man::diagnostics::BuildDiagnostics {
            package_version: "0.1.0".to_string(),
            commit_hash: "abc".to_string(),
        },
        camera_man::diagnostics::PlatformDiagnostics {
            os: "macos".to_string(),
            architecture: "aarch64".to_string(),
        },
        42,
    );
    assert_eq!(report.schema_version, 1);
    assert_eq!(report.generated_wall_time_nanos, 42);
    assert_eq!(report.output_frames, 2);
    assert_eq!(report.formats.len(), 1);
    assert_eq!(report.formats[0].width, 1920);
    assert_eq!(report.latency.len(), 6);
    assert_eq!(report.redacted_paths, vec!["<redacted>/CameraMan.app".to_string()]);
}
