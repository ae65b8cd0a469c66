use camera_man::soak::{PacingAction, SoakSchedule};
use camera_man::soak::{latency_summary, missed_frames, signed_growth, ReadValidator};

#[test]
fn latency_summary_reports_nearest_rank_percentiles() {
    let samples: Vec<u64> = (1..=100).rev().collect();
    let summary = latency_summary(&samples);
    assert_eq!(summary.samples, 100);
    assert_eq!(summary.p50_nanos, 50);
    assert_eq!(summary.p95_nanos, 95);
    assert_eq!(summary.p99_nanos, 99);
    assert_eq!(summary.max_nanos, 100);
}

#[test]
fn an_empty_latency_window_summarizes_to_zero() {
    let summary = latency_summary(&Vec::new());
    assert_eq!(summary.samples, 0);
    assert_eq!(summary.p99_nanos, 0);
    assert_eq!(summary.max_nanos, 0);
}

#[test]
fn growth_is_signed_and_clamped() {
    assert_eq!(signed_growth(150, 100), 50);
    assert_eq!(signed_growth(100, 150), -50);
    assert_eq!(signed_growth(u64::MAX, 0), i64::MAX);
    assert_eq!(signed_growth(0, u64::MAX), i64::MIN);
}

#[test]
fn a_late_tick_counts_every_missed_period() {
    let period = 33_333_333;
    assert_eq!(missed_frames(0, period), 1);
    assert_eq!(missed_frames(period - 1, period), 1);
    assert_eq!(missed_frames(2 * period, period), 3);
}

#[test]
fn reads_are_checked_for_sequence_generation_and_contents() {
    let mut validator = ReadValidator::new();
    validator.record_read(10, 7, true);
    validator.record_read(11, 7, true);
    validator.record_read(13, 8, false);
    validator.record_miss();
    let counts = validator.counts;
    assert_eq!(counts.reads, 3);
    assert_eq!(counts.read_misses, 1);
    assert_eq!(counts.sequence_errors, 1);
    assert_eq!(counts.generation_errors, 1);
    assert_eq!(counts.torn_frames, 1);
    assert_eq!(validator.generation, Some(7));
}

#[test]
fn schedule_sleeps_until_the_next_deadline() {
    let mut schedule = SoakSchedule::new();
    assert!(schedule.sample_due(0, 1_000));
    assert!(!schedule.sample_due(999, 1_000));
    assert!(schedule.sample_due(1_000, 1_000));
    assert_eq!(schedule.next_sample, 2_000);
    assert_eq!(schedule.pace(10, 100), PacingAction::Sleep(90));
    assert_eq!(schedule.next_deadline, 100);
    assert_eq!(schedule.late_frames, 0);
    assert!(!SoakSchedule::finished(99, 100));
    assert!(SoakSchedule::finished(100, 100));
}

#[test]
fn schedule_counts_and_skips_missed_frames() {
    let mut schedule = SoakSchedule::new();
    assert_eq!(schedule.pace(350, 100), PacingAction::Late(3));
    assert_eq!(schedule.late_frames, 3);
    assert_eq!(schedule.next_deadline, 400);
    assert_eq!(schedule.pace(450, 100), PacingAction::Sleep(50));
}
