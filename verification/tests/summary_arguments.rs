use camera_man::summary_arguments::{
    parse_summary_arguments, SummaryArgumentError, SummaryArguments, SummaryCommand,
};

fn arguments(list: &[&str]) -> Vec<String> {
    list.iter().map(|argument| String::from(*argument)).collect()
}

#[test]
fn reports_and_options_are_read_in_order() {
    let parsed = parse_summary_arguments(&arguments(&[
        "a.json",
        "--baseline",
        "base.json",
        "b.json",
        "--bootstrap-resamples",
        "500",
        "--output",
        "out.json",
    ]));
    assert_eq!(
        parsed,
        Ok(SummaryCommand::Run(SummaryArguments {
            baseline: Some(String::from("base.json")),
            output: Some(String::from("out.json")),
            bootstrap_resamples: 500,
            reports: vec![String::from("a.json"), String::from("b.json")],
        }))
    );
}

#[test]
fn a_summary_needs_two_reports_and_known_options() {
    assert_eq!(
        parse_summary_arguments(&arguments(&["only.json"])),
        Err(SummaryArgumentError::TooFewReports)
    );
    assert_eq!(
        parse_summary_arguments(&arguments(&["a.json", "b.json", "--quiet"])),
        Err(SummaryArgumentError::UnknownOption(String::from("--quiet")))
    );
    assert_eq!(
        parse_summary_arguments(&arguments(&["a.json", "--output"])),
        Err(SummaryArgumentError::MissingPath(String::from("--output")))
    );
    assert_eq!(
        parse_summary_arguments(&arguments(&["--bootstrap-resamples"])),
        Err(SummaryArgumentError::MissingResamples)
    );
    assert_eq!(
        parse_summary_arguments(&arguments(&["--bootstrap-resamples", "4294967296"])),
        Err(SummaryArgumentError::InvalidResamples(String::from("4294967296")))
    );
    assert_eq!(
        parse_summary_arguments(&arguments(&["--help", "--quiet"])),
        Ok(SummaryCommand::Help)
    );
}

#[test]
fn the_default_resample_count_applies_without_the_option() {
    let Ok(SummaryCommand::Run(settings)) =
        parse_summary_arguments(&arguments(&["a.json", "b.json"]))
    else {
        panic!("two reports are enough");
    };
    assert_eq!(settings.bootstrap_resamples, 10_000);
    assert_eq!(settings.baseline, None);
}
