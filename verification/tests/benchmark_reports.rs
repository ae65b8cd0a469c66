use camera_man::benchmark_reports::case_id_order;
use camera_man::benchmark_reports::{
    case_ids, comparable_to_baseline, power_source_stable, push_summary_warnings,
    validate_report, validate_report_set, BaselineFacts, BaselineRequirements, CaseCheck,
    PowerObservation, ReportFacts,
};

fn case(id: &str) -> CaseCheck {
    CaseCheck {
        case_id: id.to_owned(),
        statistics_valid: true,
        sample_count: 100,
        samples_valid: true,
        average_matches: true,
    }
}

fn report(ids: &[&str]) -> ReportFacts {
    ReportFacts {
        schema_version: 3,
        hardware: String::from("aarch64 | test"),
        target_arch: String::from("aarch64"),
        os_version: String::from("test"),
        compiler: String::from("rustc test"),
        fixture_profile: String::from("synthetic-solid-v1"),
        build_hash: String::from("test"),
        power_source: String::from("AC Power"),
        iterations: 100,
        warmup_iterations: 5,
        cases: ids.iter().map(|id| case(id)).collect(),
    }
}

#[test]
fn rejects_mismatched_case_sets_by_id() {
    let error = validate_report_set(&[report(&["one"]), report(&["two"])], 100, None).unwrap_err();
    assert!(error.0.contains("same case ids"));
    assert!(validate_report_set(&[report(&["a", "b"]), report(&["b", "a"])], 100, None).is_ok());
}

#[test]
fn rejects_mixed_builds_and_invalid_raw_sample_counts() {
    let first = report(&["case"]);
    let mut second = report(&["case"]);
    second.build_hash = String::from("other");
    let error = validate_report_set(&[first.clone(), second], 100, None).unwrap_err();
    assert!(error.0.contains("disagree"));

    let mut invalid = first.clone();
    invalid.cases[0].sample_count = 0;
    let error = validate_report_set(&[first, invalid], 100, None).unwrap_err();
    assert!(error.0.contains("raw sample"));
}

#[test]
fn set_level_checks_come_first() {
    assert_eq!(
        validate_report_set(&[report(&["a"])], 100, None).unwrap_err().0,
        "process-level summary requires at least two reports"
    );
    let pair = [report(&["a"]), report(&["a"])];
    assert_eq!(
        validate_report_set(&pair, 99, None).unwrap_err().0,
        "bootstrap resamples must be at least 100"
    );
    let old_baseline = BaselineFacts {
        schema_version: 2,
        threshold_valid: true,
    };
    assert_eq!(
        validate_report_set(&pair, 100, Some(old_baseline)).unwrap_err().0,
        "unsupported baseline schema 2"
    );
    let bad_threshold = BaselineFacts {
        schema_version: 1,
        threshold_valid: false,
    };
    assert_eq!(
        validate_report_set(&pair, 100, Some(bad_threshold)).unwrap_err().0,
        "baseline regression threshold must be finite and non-negative"
    );
    let mut future = report(&["a"]);
    future.schema_version = 4;
    assert_eq!(
        validate_report_set(&[future, report(&["a"])], 100, None).unwrap_err().0,
        "unsupported benchmark schema 4"
    );
}

#[test]
fn case_checks_name_the_failing_case() {
    let mut r = report(&["x", "y"]);
    r.cases[1].statistics_valid = false;
    assert_eq!(
        validate_report(&r).unwrap_err().0,
        "case 'y' contains invalid statistics"
    );
    let mut r = report(&["x"]);
    r.cases[0].average_matches = false;
    assert_eq!(
        validate_report(&r).unwrap_err().0,
        "case 'x' average does not match raw samples"
    );
    let mut r = report(&["x"]);
    r.iterations = 0;
    assert_eq!(
        validate_report(&r).unwrap_err().0,
        "benchmark report must contain measured cases"
    );
    assert_eq!(
        case_ids(&report(&["x", "x"])).unwrap_err().0,
        "report contains duplicate case ids"
    );
    assert_eq!(case_ids(&report(&["x", "y"])).unwrap(), vec!["x", "y"]);
}

#[test]
fn baseline_comparison_needs_matching_power_fixture_and_stability() {
    let baseline = BaselineRequirements {
        required_power_source: Some(String::from("AC Power")),
        required_fixture_profile: Some(String::from("synthetic-solid-v1")),
    };
    let power = String::from("AC Power");
    let fixture = String::from("synthetic-solid-v1");
    assert!(comparable_to_baseline(Some(&baseline), &power, &fixture, true));
    assert!(!comparable_to_baseline(Some(&baseline), &power, &fixture, false));
    assert!(!comparable_to_baseline(None, &power, &fixture, true));
    let battery = String::from("Battery Power");
    assert!(!comparable_to_baseline(Some(&baseline), &battery, &fixture, true));

    let mut warnings = vec![String::from("env (2 observations)")];
    push_summary_warnings(&mut warnings, false, Some(&baseline), &battery, &fixture);
    assert_eq!(
        warnings,
        vec![
            String::from("env (2 observations)"),
            String::from("power source changed within at least one benchmark process"),
            String::from(
                "baseline is a fixed point estimate; ratio intervals include current process variation only"
            ),
            String::from("baseline requires `AC Power` but reports use `Battery Power`"),
        ]
    );
}

#[test]
fn power_is_stable_only_when_every_snapshot_agrees() {
    let steady = PowerObservation {
        power_source: String::from("AC Power"),
        environment_power_sources: vec![String::from("AC Power"), String::from("AC Power")],
    };
    let unplugged = PowerObservation {
        power_source: String::from("AC Power"),
        environment_power_sources: vec![String::from("Battery Power")],
    };
    assert!(power_source_stable(&[steady.clone()]));
    assert!(!power_source_stable(&[steady, unplugged]));
    assert!(power_source_stable(&[]));
}

#[test]
fn environment_warnings_are_counted_and_sorted() {
    let values: Vec<String> = [
        "unknown",
        "Note: CPU throttled",
        "No thermal warning level has been recorded",
        "CPU speed limit 80",
        "Note: CPU throttled",
        "no performance warning",
    ]
    .iter()
    .map(|value| value.to_string())
    .collect();
    assert_eq!(
        camera_man::benchmark_reports::environment_warnings(&values),
        vec![
            String::from("CPU speed limit 80 (1 observations)"),
            String::from("Note: CPU throttled (2 observations)"),
        ]
    );
    assert!(camera_man::benchmark_reports::environment_warnings(&[]).is_empty());
}

#[test]
fn summary_cases_are_listed_by_id_with_ties_in_report_order() {
    let ids = vec![
        String::from("grid-1080p"),
        String::from("fill-720p"),
        String::from("grid-1080p"),
        String::from("blit"),
    ];
    assert_eq!(case_id_order(&ids), vec![3, 1, 0, 2]);
    assert!(case_id_order(&Vec::new()).is_empty());
}
