//! The command line of the benchmark summary: an optional baseline and
//! output, the bootstrap resample count, and at least two report files.
use vstd::prelude::*;

use crate::benchmark_series::texts;
use crate::benchmarking::DEFAULT_BOOTSTRAP_RESAMPLES;
use crate::text::{owned, parse_u64, parse_u64_chars, str_chars, str_eq};

verus! {

/// Reports a summary needs at least.
pub const MIN_SUMMARY_REPORTS: usize = 2;

/// What the summary was asked to do.
#[derive(Debug, Clone, PartialEq, Eq)]
pub struct SummaryArguments {
    pub baseline: Option<String>,
    pub output: Option<String>,
    pub bootstrap_resamples: u32,
    pub reports: Vec<String>,
}

/// Mathematical content of [`SummaryArguments`].
pub struct SummaryModel {
    pub baseline: Option<Seq<char>>,
    pub output: Option<Seq<char>>,
    pub bootstrap_resamples: u32,
    pub reports: Seq<Seq<char>>,
}

impl View for SummaryArguments {
    type V = SummaryModel;

    open spec fn view(&self) -> SummaryModel {
        SummaryModel {
            baseline: match self.baseline {
                Some(b) => Some(b@),
                None => None,
            },
            output: match self.output {
                Some(o) => Some(o@),
                None => None,
            },
            bootstrap_resamples: self.bootstrap_resamples,
            reports: texts(self.reports@),
        }
    }
}

/// Why a summary command line was refused.
#[derive(Debug, Clone, PartialEq, Eq)]
pub enum SummaryArgumentError {
    /// `--baseline` or `--output` came last, without its path.
    MissingPath(String),
    /// `--bootstrap-resamples` came last.
    MissingResamples,
    /// The resample count is not an unsigned 32-bit integer.
    InvalidResamples(String),
    /// An argument starting with `-` that is no option of the summary.
    UnknownOption(String),
    /// Fewer than two report files.
    TooFewReports,
}

/// Mathematical content of a [`SummaryArgumentError`].
pub enum SummaryErrorModel {
    MissingPath(Seq<char>),
    MissingResamples,
    InvalidResamples(Seq<char>),
    UnknownOption(Seq<char>),
    TooFewReports,
}

impl View for SummaryArgumentError {
    type V = SummaryErrorModel;

    open spec fn view(&self) -> SummaryErrorModel {
        match self {
            SummaryArgumentError::MissingPath(o) => SummaryErrorModel::MissingPath(o@),
            SummaryArgumentError::MissingResamples => SummaryErrorModel::MissingResamples,
            SummaryArgumentError::InvalidResamples(v) => SummaryErrorModel::InvalidResamples(v@),
            SummaryArgumentError::UnknownOption(v) => SummaryErrorModel::UnknownOption(v@),
            SummaryArgumentError::TooFewReports => SummaryErrorModel::TooFewReports,
        }
    }
}

/// What the summary should do.
#[derive(Debug, Clone, PartialEq, Eq)]
pub enum SummaryCommand {
    /// Print the usage and stop.
    Help,
    /// Summarize.
    Run(SummaryArguments),
}

/// A count as `u32::from_str` reads it.
pub open spec fn parse_u32(value: Seq<char>) -> Option<u32> {
    match parse_u64(value) {
        Some(n) => if n <= u32::MAX {
            Some(n as u32)
        } else {
            None
        },
        None => None,
    }
}

/// What one argument of the summary command line is.
#[derive(Debug, Clone, Copy, PartialEq, Eq, Structural)]
pub enum SummaryOption {
    Baseline,
    Output,
    Resamples,
    Help,
    Unknown,
    Report,
}

/// The kind of argument `a` is.
pub open spec fn summary_option(a: Seq<char>) -> SummaryOption {
    if a == "--baseline"@ {
        SummaryOption::Baseline
    } else if a == "--output"@ {
        SummaryOption::Output
    } else if a == "--bootstrap-resamples"@ {
        SummaryOption::Resamples
    } else if a == "--help"@ || a == "-h"@ {
        SummaryOption::Help
    } else if a.len() > 0 && a[0] == '-' {
        SummaryOption::Unknown
    } else {
        SummaryOption::Report
    }
}

/// The summary settings after reading `args` from position `i` on,
/// starting from `m`; `Ok(None)` asks for the usage. Any other argument
/// starting with `-` is refused; the rest name reports, in order.
pub open spec fn summary_from(args: Seq<Seq<char>>, i: nat, m: SummaryModel) -> Result<
    Option<SummaryModel>,
    SummaryErrorModel,
>
    decreases args.len() - i,
{
    if i >= args.len() {
        if m.reports.len() < MIN_SUMMARY_REPORTS {
            Err(SummaryErrorModel::TooFewReports)
        } else {
            Ok(Some(m))
        }
    } else {
        let a = args[i as int];
        let next: Option<Seq<char>> = if i + 1 < args.len() {
            Some(args[i + 1 as int])
        } else {
            None
        };
        match summary_option(a) {
            SummaryOption::Baseline | SummaryOption::Output => match next {
                None => Err(SummaryErrorModel::MissingPath(a)),
                Some(v) => summary_from(
                    args,
                    i + 2,
                    if summary_option(a) == SummaryOption::Baseline {
                        SummaryModel { baseline: Some(v), ..m }
                    } else {
                        SummaryModel { output: Some(v), ..m }
                    },
                ),
            },
            SummaryOption::Resamples => match next {
                None => Err(SummaryErrorModel::MissingResamples),
                Some(v) => match parse_u32(v) {
                    None => Err(SummaryErrorModel::InvalidResamples(v)),
                    Some(n) => summary_from(args, i + 2, SummaryModel { bootstrap_resamples: n, ..m }),
                },
            },
            SummaryOption::Help => Ok(None),
            SummaryOption::Unknown => Err(SummaryErrorModel::UnknownOption(a)),
            SummaryOption::Report => summary_from(
                args,
                i + 1,
                SummaryModel { reports: m.reports.push(a), ..m },
            ),
        }
    }
}

/// The kind of argument `a` is.
pub fn classify_summary_argument(a: &str) -> (k: SummaryOption)
    ensures
        k == summary_option(a@),
{
    proof {
        reveal_strlit("--baseline");
        reveal_strlit("--output");
        reveal_strlit("--bootstrap-resamples");
        reveal_strlit("--help");
        reveal_strlit("-h");
    }
    if str_eq(a, "--baseline") {
        SummaryOption::Baseline
    } else if str_eq(a, "--output") {
        SummaryOption::Output
    } else if str_eq(a, "--bootstrap-resamples") {
        SummaryOption::Resamples
    } else if str_eq(a, "--help") || str_eq(a, "-h") {
        SummaryOption::Help
    } else {
        let chars = str_chars(a);
        if chars.len() > 0 && chars[0] == '-' {
            SummaryOption::Unknown
        } else {
            SummaryOption::Report
        }
    }
}

/// The resample count in `v`.
fn resample_count(v: &String) -> (r: Option<u32>)
    ensures
        r == parse_u32(v@),
{
    let chars = str_chars(v.as_str());
    match parse_u64_chars(chars.as_slice()) {
        Some(n) => if n > 0xffff_ffff {
            None
        } else {
            Some(n as u32)
        },
        None => None,
    }
}

/// Reads the summary command line (the arguments after the program name).
pub fn parse_summary_arguments(arguments: &Vec<String>) -> (r: Result<
    SummaryCommand,
    SummaryArgumentError,
>)
    ensures
        match summary_from(
            texts(arguments@),
            0,
            SummaryModel {
                baseline: None,
                output: None,
                bootstrap_resamples: DEFAULT_BOOTSTRAP_RESAMPLES,
                reports: Seq::empty(),
            },
        ) {
            Ok(None) => r == Ok::<SummaryCommand, SummaryArgumentError>(SummaryCommand::Help),
            Ok(Some(m)) => r matches Ok(SummaryCommand::Run(a)) && a@ == m,
            Err(e) => r matches Err(error) && error@ == e,
        },
{
    let ghost args = texts(arguments@);
    let mut settings = SummaryArguments {
        baseline: None,
        output: None,
        bootstrap_resamples: DEFAULT_BOOTSTRAP_RESAMPLES,
        reports: Vec::new(),
    };
    assert(settings@.reports =~= Seq::<Seq<char>>::empty());
    assert(settings@ == (SummaryModel {
        baseline: None,
        output: None,
        bootstrap_resamples: DEFAULT_BOOTSTRAP_RESAMPLES,
        reports: Seq::empty(),
    }));
    let mut i: usize = 0;
    while i < arguments.len()
        invariant
            i <= arguments@.len(),
            args == texts(arguments@),
            summary_from(args, i as nat, settings@) == summary_from(
                args,
                0,
                SummaryModel {
                    baseline: None,
                    output: None,
                    bootstrap_resamples: DEFAULT_BOOTSTRAP_RESAMPLES,
                    reports: Seq::empty(),
                },
            ),
        decreases arguments@.len() - i,
    {
        let a = arguments[i].as_str();
        assert(a@ == args[i as int]);
        let next: Option<&String> = if i + 1 < arguments.len() {
            Some(&arguments[i + 1])
        } else {
            None
        };
        assert(match next {
            Some(v) => i + 1 < args.len() && v@ == args[i + 1],
            None => i + 1 >= args.len(),
        });
        match classify_summary_argument(a) {
            SummaryOption::Baseline | SummaryOption::Output => {
                match next {
                    None => {
                        return Err(SummaryArgumentError::MissingPath(owned(a)));
                    },
                    Some(v) => {
                        if classify_summary_argument(a) == SummaryOption::Baseline {
                            settings.baseline = Some(v.clone());
                        } else {
                            settings.output = Some(v.clone());
                        }
                        i = i + 2;
                    },
                }
            },
            SummaryOption::Resamples => {
                match next {
                    None => {
                        return Err(SummaryArgumentError::MissingResamples);
                    },
                    Some(v) => {
                        match resample_count(v) {
                            Some(n) => {
                                settings.bootstrap_resamples = n;
                                i = i + 2;
                            },
                            None => {
                                return Err(SummaryArgumentError::InvalidResamples(v.clone()));
                            },
                        }
                    },
                }
            },
            SummaryOption::Help => {
                return Ok(SummaryCommand::Help);
            },
            SummaryOption::Unknown => {
                return Err(SummaryArgumentError::UnknownOption(owned(a)));
            },
            SummaryOption::Report => {
                let ghost before = settings@;
                settings.reports.push(owned(a));
                assert(settings@.reports =~= before.reports.push(a@));
                i = i + 1;
            },
        }
    }
    if settings.reports.len() < MIN_SUMMARY_REPORTS {
        return Err(SummaryArgumentError::TooFewReports);
    }
    Ok(SummaryCommand::Run(settings))
}

} // verus!
