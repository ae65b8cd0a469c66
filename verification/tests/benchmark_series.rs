use camera_man::benchmark_series::newest_benchmark_executable;
use camera_man::benchmark_series::{
    benchmark_commands, check_baseline, parse_series_arguments, preflight,
    required_power_source, seed_for_run, BenchmarkInvocation, SeriesArgumentError,
    SeriesArguments, SeriesCommand, DEFAULT_BASE_SEED,
};
use camera_man::benchmarking::DEFAULT_FIXTURE_PROFILE;

fn environment<'a>(invocation: &'a BenchmarkInvocation, name: &str) -> &'a str {
    invocation
        .environment
        .iter()
        .find(|(key, _)| key == name)
        .map(|(_, value)| value.as_str())
        .expect("variable is set")
}

fn arguments(list: &[&str]) -> Vec<String> {
    list.iter().map(|argument| String::from(*argument)).collect()
}

#[test]
fn serialized_invocation_matches_the_executed_environment() {
    let arguments = SeriesArguments {
        output_dir: Some(String::from("unused")),
        baseline: String::from("benchmarks/baselines.json"),
        runs: 3,
        iterations: 100,
        warmups: 5,
        bootstrap_resamples: 10_000,
        base_seed: 42,
        mode: String::from("matrix"),
        fixture: String::from(DEFAULT_FIXTURE_PROFILE),
        background_load: String::from("quiet profile"),
        dry_run: false,
    };
    let invocations = benchmark_commands(&arguments, "/tmp/cameraman-series");

    assert_eq!(invocations.len(), 3);
    assert_eq!(invocations[0].program, "cargo");
    assert_eq!(
        environment(&invocations[0], "CAMERAMAN_BENCH_BACKGROUND_LOAD"),
        "quiet profile"
    );
    assert_eq!(environment(&invocations[0], "CAMERAMAN_BENCH_CASE_SEED"), "42");
    assert_ne!(
        environment(&invocations[0], "CAMERAMAN_BENCH_CASE_SEED"),
        environment(&invocations[1], "CAMERAMAN_BENCH_CASE_SEED")
    );
    assert!(environment(&invocations[2], "CAMERAMAN_BENCH_JSON").ends_with("compositor-run-03.json"));
}

#[test]
fn each_invocation_runs_the_compositor_bench_with_sorted_variables() {
    let arguments = SeriesArguments {
        output_dir: None,
        baseline: String::from("b.json"),
        runs: 12,
        iterations: 7,
        warmups: 2,
        bootstrap_resamples: 100,
        base_seed: 1,
        mode: String::from("smoke"),
        fixture: String::from("fixture"),
        background_load: String::from("none"),
        dry_run: true,
    };
    let invocations = benchmark_commands(&arguments, "/out/");
    assert_eq!(
        invocations[0].arguments,
        vec!["bench", "--locked", "--bench", "compositor", "--no-default-features"]
    );
    let names: Vec<&str> = invocations[0]
        .environment
        .iter()
        .map(|(name, _)| name.as_str())
        .collect();
    let mut sorted = names.clone();
    sorted.sort();
    assert_eq!(names, sorted);
    assert_eq!(environment(&invocations[11], "CAMERAMAN_BENCH_JSON"), "/out/compositor-run-12.json");
    assert_eq!(environment(&invocations[0], "CAMERAMAN_BENCH_ITERATIONS"), "7");
    assert_eq!(environment(&invocations[0], "CAMERAMAN_BENCH_WARMUP_ITERATIONS"), "2");
    assert_eq!(environment(&invocations[0], "CAMERAMAN_BENCH_CASE_ORDER"), "random");
    assert_eq!(environment(&invocations[0], "CAMERAMAN_BENCH_MODE"), "smoke");
}

#[test]
fn seeds_advance_by_the_golden_ratio_stride_and_wrap() {
    assert_eq!(seed_for_run(42, 0), 42);
    assert_eq!(seed_for_run(0, 1), 0x9e37_79b9_7f4a_7c15);
    assert_eq!(
        seed_for_run(u64::MAX, 1),
        0x9e37_79b9_7f4a_7c15u64.wrapping_sub(1)
    );
    assert_eq!(
        seed_for_run(DEFAULT_BASE_SEED, 3),
        DEFAULT_BASE_SEED.wrapping_add(3u64.wrapping_mul(0x9e37_79b9_7f4a_7c15))
    );
}

#[test]
fn the_series_command_line_has_defaults_and_checks_its_values() {
    let parsed = parse_series_arguments(&arguments(&["--runs", "4", "--dry-run"])).unwrap();
    let SeriesCommand::Run(settings) = parsed else {
        panic!("a run was requested");
    };
    assert_eq!(settings.runs, 4);
    assert!(settings.dry_run);
    assert_eq!(settings.iterations, 100);
    assert_eq!(settings.warmups, 5);
    assert_eq!(settings.mode, "matrix");
    assert_eq!(settings.baseline, "benchmarks/baselines.json");
    assert_eq!(settings.output_dir, None);

    assert_eq!(
        parse_series_arguments(&arguments(&["--runs", "2"])),
        Err(SeriesArgumentError::TooFewRuns)
    );
    assert_eq!(
        parse_series_arguments(&arguments(&["--bootstrap-resamples", "99"])),
        Err(SeriesArgumentError::TooFewResamples)
    );
    assert_eq!(
        parse_series_arguments(&arguments(&["--iterations", "0"])),
        Err(SeriesArgumentError::NotPositive(String::from("--iterations")))
    );
    assert_eq!(
        parse_series_arguments(&arguments(&["--mode", ""])),
        Err(SeriesArgumentError::MissingValue(String::from("--mode")))
    );
    assert_eq!(
        parse_series_arguments(&arguments(&["--output-dir"])),
        Err(SeriesArgumentError::MissingPath(String::from("--output-dir")))
    );
    assert_eq!(
        parse_series_arguments(&arguments(&["--base-seed", "x"])),
        Err(SeriesArgumentError::InvalidSeed(String::from("x")))
    );
    assert_eq!(
        parse_series_arguments(&arguments(&["--verbose"])),
        Err(SeriesArgumentError::UnknownOption(String::from("--verbose")))
    );
    assert_eq!(
        parse_series_arguments(&arguments(&["-h", "--verbose"])),
        Ok(SeriesCommand::Help)
    );
}

#[test]
fn preflight_refuses_battery_and_reported_limits() {
    assert_eq!(
        preflight("AC Power", "Battery Power", "unknown", "unknown", "unknown"),
        Err(String::from(
            "benchmark requires 'AC Power', current source is 'Battery Power'; connect power and retry"
        ))
    );
    assert_eq!(
        preflight("AC Power", "AC Power", "No thermal warning level", "unknown", "No CPU power status"),
        Ok(())
    );
    assert_eq!(
        preflight("AC Power", "AC Power", "unknown", "Performance warning level 2", "unknown"),
        Err(String::from("performance preflight failed: Performance warning level 2"))
    );
}

#[test]
fn a_baseline_must_match_the_schema_and_fixture() {
    assert_eq!(check_baseline(1, None, "any"), Ok(()));
    assert_eq!(check_baseline(1, Some("same"), "same"), Ok(()));
    assert_eq!(
        check_baseline(2, None, "any"),
        Err(String::from("unsupported baseline schema 2"))
    );
    assert_eq!(
        check_baseline(1, Some("synthetic-solid-v1"), "other"),
        Err(String::from(
            "baseline requires fixture 'synthetic-solid-v1' but series requested 'other'"
        ))
    );
    assert_eq!(required_power_source(None), "AC Power");
    assert_eq!(required_power_source(Some("Battery Power")), "Battery Power");
}

#[test]
fn newest_benchmark_executable_skips_dependency_files() {
    let candidates = vec![
        (String::from("compositor-abc"), 10),
        (String::from("compositor-abc.d"), 50),
        (String::from("resize-xyz"), 90),
        (String::from("compositor-def"), 30),
        (String::from("compositor-ghi"), 30),
    ];
    assert_eq!(newest_benchmark_executable(&candidates, "compositor-"), Some(4));
    assert_eq!(newest_benchmark_executable(&candidates, "missing-"), None);
}
