//! Planning a series of compositor benchmark processes: the command line of
//! the series, the environment of each benchmark process, and the preflight
//! that refuses to measure on battery or under thermal pressure.
use vstd::prelude::*;

use crate::benchmarking::{DEFAULT_BOOTSTRAP_RESAMPLES, DEFAULT_FIXTURE_PROFILE};
use crate::paths::{push_component, pushed};
use crate::text::{
    ascii_lower, chars_end_with, chars_occur_at, decimal, decimal_string, ends_with, lower_chars,
    occurs_at, owned, parse_u64, parse_u64_chars, push_decimal, push_str, str_chars, str_eq,
    string_from_chars,
};

verus! {

/// Benchmark processes in a series unless told otherwise.
pub const DEFAULT_RUNS: u32 = 3;

/// Measured iterations per case.
pub const DEFAULT_ITERATIONS: u32 = 100;

/// Warm-up iterations per case.
pub const DEFAULT_WARMUPS: u32 = 5;

/// Seed of the first process's case order.
pub const DEFAULT_BASE_SEED: u64 = 0x4341_4d45_5241_4d41;

/// Fewest processes that give process-level statistics.
pub const MIN_RUNS: u32 = 3;

/// Fewest bootstrap resamples accepted.
pub const MIN_BOOTSTRAP_RESAMPLES: u32 = 100;

/// Baseline file read unless told otherwise.
pub const DEFAULT_BASELINE_PATH: &'static str = "benchmarks/baselines.json";

/// Benchmark mode unless told otherwise.
pub const DEFAULT_MODE: &'static str = "matrix";

/// Background-load note unless told otherwise.
pub const DEFAULT_BACKGROUND_LOAD: &'static str = "benchmark series; no intentional background load";

/// What a series was asked to do.
#[derive(Debug, Clone, PartialEq, Eq)]
pub struct SeriesArguments {
    /// Where the reports go; without one the caller picks a fresh directory.
    pub output_dir: Option<String>,
    pub baseline: String,
    pub runs: u32,
    pub iterations: u32,
    pub warmups: u32,
    pub bootstrap_resamples: u32,
    pub base_seed: u64,
    pub mode: String,
    pub fixture: String,
    pub background_load: String,
    pub dry_run: bool,
}

/// Mathematical content of [`SeriesArguments`].
pub struct SeriesModel {
    pub output_dir: Option<Seq<char>>,
    pub baseline: Seq<char>,
    pub runs: u32,
    pub iterations: u32,
    pub warmups: u32,
    pub bootstrap_resamples: u32,
    pub base_seed: u64,
    pub mode: Seq<char>,
    pub fixture: Seq<char>,
    pub background_load: Seq<char>,
    pub dry_run: bool,
}

impl View for SeriesArguments {
    type V = SeriesModel;

    open spec fn view(&self) -> SeriesModel {
        SeriesModel {
            output_dir: match self.output_dir {
                Some(d) => Some(d@),
                None => None,
            },
            baseline: self.baseline@,
            runs: self.runs,
            iterations: self.iterations,
            warmups: self.warmups,
            bootstrap_resamples: self.bootstrap_resamples,
            base_seed: self.base_seed,
            mode: self.mode@,
            fixture: self.fixture@,
            background_load: self.background_load@,
            dry_run: self.dry_run,
        }
    }
}

/// The settings before any option is read.
pub open spec fn default_series() -> SeriesModel {
    SeriesModel {
        output_dir: None,
        baseline: DEFAULT_BASELINE_PATH@,
        runs: DEFAULT_RUNS,
        iterations: DEFAULT_ITERATIONS,
        warmups: DEFAULT_WARMUPS,
        bootstrap_resamples: DEFAULT_BOOTSTRAP_RESAMPLES,
        base_seed: DEFAULT_BASE_SEED,
        mode: DEFAULT_MODE@,
        fixture: DEFAULT_FIXTURE_PROFILE@,
        background_load: DEFAULT_BACKGROUND_LOAD@,
        dry_run: false,
    }
}

/// Why a series command line was refused.
#[derive(Debug, Clone, PartialEq, Eq)]
pub enum SeriesArgumentError {
    /// A path option came last, without its path.
    MissingPath(String),
    /// A text option had no value or an empty one.
    MissingValue(String),
    /// A count option had no value, or not a positive 32-bit integer.
    NotPositive(String),
    /// `--base-seed` came last.
    MissingSeed,
    /// The value of `--base-seed` is not an unsigned 64-bit integer.
    InvalidSeed(String),
    /// An option the series does not know.
    UnknownOption(String),
    /// Fewer than three processes.
    TooFewRuns,
    /// Fewer than one hundred bootstrap resamples.
    TooFewResamples,
}

/// Mathematical content of a [`SeriesArgumentError`].
pub enum SeriesErrorModel {
    MissingPath(Seq<char>),
    MissingValue(Seq<char>),
    NotPositive(Seq<char>),
    MissingSeed,
    InvalidSeed(Seq<char>),
    UnknownOption(Seq<char>),
    TooFewRuns,
    TooFewResamples,
}

impl View for SeriesArgumentError {
    type V = SeriesErrorModel;

    open spec fn view(&self) -> SeriesErrorModel {
        match self {
            SeriesArgumentError::MissingPath(o) => SeriesErrorModel::MissingPath(o@),
            SeriesArgumentError::MissingValue(o) => SeriesErrorModel::MissingValue(o@),
            SeriesArgumentError::NotPositive(o) => SeriesErrorModel::NotPositive(o@),
            SeriesArgumentError::MissingSeed => SeriesErrorModel::MissingSeed,
            SeriesArgumentError::InvalidSeed(v) => SeriesErrorModel::InvalidSeed(v@),
            SeriesArgumentError::UnknownOption(v) => SeriesErrorModel::UnknownOption(v@),
            SeriesArgumentError::TooFewRuns => SeriesErrorModel::TooFewRuns,
            SeriesArgumentError::TooFewResamples => SeriesErrorModel::TooFewResamples,
        }
    }
}

/// What the series should do.
#[derive(Debug, Clone, PartialEq, Eq)]
pub enum SeriesCommand {
    /// Print the usage and stop.
    Help,
    /// Run (or, with `dry_run`, only plan) the series.
    Run(SeriesArguments),
}

/// A positive count as `u32::from_str` reads it.
pub open spec fn positive_u32(value: Option<Seq<char>>) -> Option<u32> {
    match value {
        Some(v) => match parse_u64(v) {
            Some(n) => if 0 < n && n <= u32::MAX {
                Some(n as u32)
            } else {
                None
            },
            None => None,
        },
        None => None,
    }
}

/// The series settings after reading `args` from position `i` on, starting
/// from `m`; `Ok(None)` asks for the usage. Each option takes the argument
/// after it as its value.
pub open spec fn series_from(args: Seq<Seq<char>>, i: nat, m: SeriesModel) -> Result<
    Option<SeriesModel>,
    SeriesErrorModel,
>
    decreases args.len() - i,
{
    if i >= args.len() {
        if m.runs < MIN_RUNS {
            Err(SeriesErrorModel::TooFewRuns)
        } else if m.bootstrap_resamples < MIN_BOOTSTRAP_RESAMPLES {
            Err(SeriesErrorModel::TooFewResamples)
        } else {
            Ok(Some(m))
        }
    } else {
        let a = args[i as int];
        let next: Option<Seq<char>> = if i + 1 < args.len() {
            Some(args[i + 1 as int])
        } else {
            None
        };
        if a == "--output-dir"@ || a == "--baseline"@ {
            match next {
                None => Err(SeriesErrorModel::MissingPath(a)),
                Some(v) => series_from(
                    args,
                    i + 2,
                    if a == "--output-dir"@ {
                        SeriesModel { output_dir: Some(v), ..m }
                    } else {
                        SeriesModel { baseline: v, ..m }
                    },
                ),
            }
        } else if a == "--runs"@ || a == "--iterations"@ || a == "--warmups"@ || a
            == "--bootstrap-resamples"@ {
            match positive_u32(next) {
                None => Err(SeriesErrorModel::NotPositive(a)),
                Some(n) => series_from(
                    args,
                    i + 2,
                    if a == "--runs"@ {
                        SeriesModel { runs: n, ..m }
                    } else if a == "--iterations"@ {
                        SeriesModel { iterations: n, ..m }
                    } else if a == "--warmups"@ {
                        SeriesModel { warmups: n, ..m }
                    } else {
                        SeriesModel { bootstrap_resamples: n, ..m }
                    },
                ),
            }
        } else if a == "--base-seed"@ {
            match next {
                None => Err(SeriesErrorModel::MissingSeed),
                Some(v) => match parse_u64(v) {
                    None => Err(SeriesErrorModel::InvalidSeed(v)),
                    Some(seed) => series_from(args, i + 2, SeriesModel { base_seed: seed, ..m }),
                },
            }
        } else if a == "--mode"@ || a == "--fixture"@ || a == "--background-load"@ {
            match next {
                Some(v) => if v.len() == 0 {
                    Err(SeriesErrorModel::MissingValue(a))
                } else {
                    series_from(
                        args,
                        i + 2,
                        if a == "--mode"@ {
                            SeriesModel { mode: v, ..m }
                        } else if a == "--fixture"@ {
                            SeriesModel { fixture: v, ..m }
                        } else {
                            SeriesModel { background_load: v, ..m }
                        },
                    )
                },
                None => Err(SeriesErrorModel::MissingValue(a)),
            }
        } else if a == "--dry-run"@ {
            series_from(args, i + 1, SeriesModel { dry_run: true, ..m })
        } else if a == "--help"@ || a == "-h"@ {
            Ok(None)
        } else {
            Err(SeriesErrorModel::UnknownOption(a))
        }
    }
}

/// The texts of a list of arguments.
pub open spec fn texts(args: Seq<String>) -> Seq<Seq<char>> {
    args.map_values(|a: String| a@)
}

fn positive_count(value: Option<&String>) -> (r: Option<u32>)
    ensures
        r == positive_u32(
            match value {
                Some(v) => Some(v@),
                None => None,
            },
        ),
{
    match value {
        None => None,
        Some(v) => {
            let chars = str_chars(v.as_str());
            match parse_u64_chars(chars.as_slice()) {
                Some(n) => if 0 < n && n <= 0xffff_ffff {
                    Some(n as u32)
                } else {
                    None
                },
                None => None,
            }
        },
    }
}

/// Reads the series command line (the arguments after the program name).
pub fn parse_series_arguments(arguments: &Vec<String>) -> (r: Result<
    SeriesCommand,
    SeriesArgumentError,
>)
    ensures
        match series_from(texts(arguments@), 0, default_series()) {
            Ok(None) => r == Ok::<SeriesCommand, SeriesArgumentError>(SeriesCommand::Help),
            Ok(Some(m)) => r matches Ok(SeriesCommand::Run(a)) && a@ == m,
            Err(e) => r matches Err(error) && error@ == e,
        },
{
    let ghost args = texts(arguments@);
    let mut settings = SeriesArguments {
        output_dir: None,
        baseline: owned(DEFAULT_BASELINE_PATH),
        runs: DEFAULT_RUNS,
        iterations: DEFAULT_ITERATIONS,
        warmups: DEFAULT_WARMUPS,
        bootstrap_resamples: DEFAULT_BOOTSTRAP_RESAMPLES,
        base_seed: DEFAULT_BASE_SEED,
        mode: owned(DEFAULT_MODE),
        fixture: owned(DEFAULT_FIXTURE_PROFILE),
        background_load: owned(DEFAULT_BACKGROUND_LOAD),
        dry_run: false,
    };
    assert(settings@ == default_series());
    let mut i: usize = 0;
    while i < arguments.len()
        invariant
            i <= arguments@.len(),
            args == texts(arguments@),
            series_from(args, i as nat, settings@) == series_from(args, 0, default_series()),
        decreases arguments@.len() - i,
    {
        let a = arguments[i].as_str();
        assert(a@ == args[i as int]);
        let next: Option<&String> = if i + 1 < arguments.len() {
            Some(&arguments[i + 1])
        } else {
            None
        };
        assert(match next {
            Some(v) => i + 1 < args.len() && v@ == args[i + 1],
            None => i + 1 >= args.len(),
        });
        proof {
            reveal_strlit("--output-dir");
            reveal_strlit("--baseline");
            reveal_strlit("--runs");
            reveal_strlit("--iterations");
            reveal_strlit("--warmups");
            reveal_strlit("--bootstrap-resamples");
            reveal_strlit("--base-seed");
            reveal_strlit("--mode");
            reveal_strlit("--fixture");
            reveal_strlit("--background-load");
            reveal_strlit("--dry-run");
            reveal_strlit("--help");
            reveal_strlit("-h");
        }
        if str_eq(a, "--output-dir") || str_eq(a, "--baseline") {
            match next {
                None => {
                    return Err(SeriesArgumentError::MissingPath(owned(a)));
                },
                Some(v) => {
                    if str_eq(a, "--output-dir") {
                        settings.output_dir = Some(v.clone());
                    } else {
                        settings.baseline = v.clone();
                    }
                    i = i + 2;
                },
            }
        } else if str_eq(a, "--runs") || str_eq(a, "--iterations") || str_eq(a, "--warmups")
            || str_eq(a, "--bootstrap-resamples") {
            match positive_count(next) {
                None => {
                    return Err(SeriesArgumentError::NotPositive(owned(a)));
                },
                Some(n) => {
                    if str_eq(a, "--runs") {
                        settings.runs = n;
                    } else if str_eq(a, "--iterations") {
                        settings.iterations = n;
                    } else if str_eq(a, "--warmups") {
                        settings.warmups = n;
                    } else {
                        settings.bootstrap_resamples = n;
                    }
                    i = i + 2;
                },
            }
        } else if str_eq(a, "--base-seed") {
            match next {
                None => {
                    return Err(SeriesArgumentError::MissingSeed);
                },
                Some(v) => {
                    let chars = str_chars(v.as_str());
                    match parse_u64_chars(chars.as_slice()) {
                        None => {
                            return Err(SeriesArgumentError::InvalidSeed(v.clone()));
                        },
                        Some(seed) => {
                            settings.base_seed = seed;
                            i = i + 2;
                        },
                    }
                },
            }
        } else if str_eq(a, "--mode") || str_eq(a, "--fixture") || str_eq(a, "--background-load") {
            match next {
                None => {
                    return Err(SeriesArgumentError::MissingValue(owned(a)));
                },
                Some(v) => {
                    if v.as_str().unicode_len() == 0 {
                        return Err(SeriesArgumentError::MissingValue(owned(a)));
                    }
                    if str_eq(a, "--mode") {
                        settings.mode = v.clone();
                    } else if str_eq(a, "--fixture") {
                        settings.fixture = v.clone();
                    } else {
                        settings.background_load = v.clone();
                    }
                    i = i + 2;
                },
            }
        } else if str_eq(a, "--dry-run") {
            settings.dry_run = true;
            i = i + 1;
        } else if str_eq(a, "--help") || str_eq(a, "-h") {
            return Ok(SeriesCommand::Help);
        } else {
            return Err(SeriesArgumentError::UnknownOption(owned(a)));
        }
    }
    if settings.runs < MIN_RUNS {
        return Err(SeriesArgumentError::TooFewRuns);
    }
    if settings.bootstrap_resamples < MIN_BOOTSTRAP_RESAMPLES {
        return Err(SeriesArgumentError::TooFewResamples);
    }
    Ok(SeriesCommand::Run(settings))
}

/// Distance between the case-order seeds of consecutive processes.
pub const SEED_STRIDE: u64 = 0x9e37_79b9_7f4a_7c15;

/// The case-order seed of process `run`: the base seed advanced by `run`
/// strides, wrapping at 64 bits.
pub open spec fn run_seed(base_seed: u64, run: u32) -> u64 {
    ((base_seed + run * SEED_STRIDE) % 0x1_0000_0000_0000_0000) as u64
}

/// The case-order seed of process `run`.
pub fn seed_for_run(base_seed: u64, run: u32) -> (seed: u64)
    ensures
        seed == run_seed(base_seed, run),
{
    let stride = (run as u64).wrapping_mul(SEED_STRIDE);
    let seed = base_seed.wrapping_add(stride);
    proof {
        let m: int = 0x1_0000_0000_0000_0000;
        let product = run * SEED_STRIDE;
        assert(stride == product % m);
        assert(seed == (base_seed + stride) % m);
        vstd::arithmetic::div_mod::lemma_add_mod_noop(base_seed as int, product, m);
        vstd::arithmetic::div_mod::lemma_mod_twice(base_seed as int, m);
        vstd::arithmetic::div_mod::lemma_small_mod(base_seed as nat, m as nat);
    }
    seed
}

/// One benchmark process: program, arguments and environment (sorted by
/// name).
#[derive(Debug, Clone, PartialEq, Eq)]
pub struct BenchmarkInvocation {
    pub program: String,
    pub arguments: Vec<String>,
    pub environment: Vec<(String, String)>,
}

/// A number with at least two digits, zero-padded.
pub open spec fn two_digits(n: nat) -> Seq<char> {
    if n < 10 {
        seq!['0'] + decimal(n)
    } else {
        decimal(n)
    }
}

/// The report file of process `run` (counted from zero).
pub open spec fn run_report_name(run: nat) -> Seq<char> {
    "compositor-run-"@ + two_digits(run + 1) + ".json"@
}

/// The arguments every benchmark process gets.
pub open spec fn bench_arguments() -> Seq<Seq<char>> {
    seq!["bench"@, "--locked"@, "--bench"@, "compositor"@, "--no-default-features"@]
}

/// The environment of process `run`, sorted by variable name.
pub open spec fn run_environment(m: SeriesModel, output_dir: Seq<char>, run: u32) -> Seq<
    (Seq<char>, Seq<char>),
> {
    seq![
        ("CAMERAMAN_BENCH_BACKGROUND_LOAD"@, m.background_load),
        ("CAMERAMAN_BENCH_CASE_ORDER"@, "random"@),
        ("CAMERAMAN_BENCH_CASE_SEED"@, decimal(run_seed(m.base_seed, run) as nat)),
        ("CAMERAMAN_BENCH_FIXTURE"@, m.fixture),
        ("CAMERAMAN_BENCH_ITERATIONS"@, decimal(m.iterations as nat)),
        ("CAMERAMAN_BENCH_JSON"@, pushed(output_dir, run_report_name(run as nat))),
        ("CAMERAMAN_BENCH_MODE"@, m.mode),
        ("CAMERAMAN_BENCH_WARMUP_ITERATIONS"@, decimal(m.warmups as nat)),
    ]
}

/// The texts of an environment.
pub open spec fn pair_texts(pairs: Seq<(String, String)>) -> Seq<(Seq<char>, Seq<char>)> {
    pairs.map_values(|p: (String, String)| (p.0@, p.1@))
}

/// `invocation` runs process `run` of the series `m` writing under
/// `output_dir`.
pub open spec fn is_run_invocation(
    invocation: BenchmarkInvocation,
    m: SeriesModel,
    output_dir: Seq<char>,
    run: u32,
) -> bool {
    &&& invocation.program@ == "cargo"@
    &&& texts(invocation.arguments@) == bench_arguments()
    &&& pair_texts(invocation.environment@) == run_environment(m, output_dir, run)
}

/// The file name of process `run`'s report.
pub fn run_report_file_name(run: u32) -> (name: String)
    requires
        run < u32::MAX,
    ensures
        name@ == run_report_name(run as nat),
{
    let mut out: Vec<char> = Vec::new();
    push_str(&mut out, "compositor-run-");
    let number = run + 1;
    if number < 10 {
        out.push('0');
    }
    push_decimal(&mut out, number as u64);
    push_str(&mut out, ".json");
    proof {
        reveal_strlit("compositor-run-");
        reveal_strlit(".json");
    }
    assert(out@ =~= run_report_name(run as nat));
    string_from_chars(out.as_slice())
}

fn pair(name: &str, value: String) -> (p: (String, String))
    ensures
        p.0@ == name@,
        p.1 == value,
{
    (owned(name), value)
}

/// The invocation of process `run`.
pub fn run_invocation(arguments: &SeriesArguments, output_dir: &str, run: u32) -> (invocation:
    BenchmarkInvocation)
    requires
        run < u32::MAX,
    ensures
        is_run_invocation(invocation, arguments@, output_dir@, run),
{
    let report = run_report_file_name(run);
    let environment = vec![
        pair("CAMERAMAN_BENCH_BACKGROUND_LOAD", arguments.background_load.clone()),
        pair("CAMERAMAN_BENCH_CASE_ORDER", owned("random")),
        pair("CAMERAMAN_BENCH_CASE_SEED", decimal_string(seed_for_run(arguments.base_seed, run))),
        pair("CAMERAMAN_BENCH_FIXTURE", arguments.fixture.clone()),
        pair("CAMERAMAN_BENCH_ITERATIONS", decimal_string(arguments.iterations as u64)),
        pair("CAMERAMAN_BENCH_JSON", push_component(output_dir, report.as_str())),
        pair("CAMERAMAN_BENCH_MODE", arguments.mode.clone()),
        pair("CAMERAMAN_BENCH_WARMUP_ITERATIONS", decimal_string(arguments.warmups as u64)),
    ];
    let bench_args = vec![
        owned("bench"),
        owned("--locked"),
        owned("--bench"),
        owned("compositor"),
        owned("--no-default-features"),
    ];
    let invocation = BenchmarkInvocation { program: owned("cargo"), arguments: bench_args, environment };
    assert(pair_texts(invocation.environment@) =~= run_environment(
        arguments@,
        output_dir@,
        run,
    ));
    assert(texts(invocation.arguments@) =~= bench_arguments());
    invocation
}

/// One invocation per process of the series, in run order.
pub fn benchmark_commands(arguments: &SeriesArguments, output_dir: &str) -> (commands: Vec<BenchmarkInvocation>)
    ensures
        commands@.len() == arguments.runs,
        forall|run: int|
            0 <= run < arguments.runs ==> is_run_invocation(
                #[trigger] commands@[run],
                arguments@,
                output_dir@,
                run as u32,
            ),
{
    let mut commands: Vec<BenchmarkInvocation> = Vec::new();
    let mut run: u32 = 0;
    while run < arguments.runs
        invariant
            run <= arguments.runs,
            commands@.len() == run,
            forall|r: int|
                0 <= r < run ==> is_run_invocation(
                    #[trigger] commands@[r],
                    arguments@,
                    output_dir@,
                    r as u32,
                ),
        decreases arguments.runs - run,
    {
        commands.push(run_invocation(arguments, output_dir, run));
        run = run + 1;
    }
    commands
}

/// The warning text of an environment check fails the preflight unless it
/// is `unknown` or starts with `no ` in any case.
pub open spec fn blocks_measurement(value: Seq<char>) -> bool {
    value != "unknown"@ && !occurs_at(ascii_lower(value), "no "@, 0)
}

/// Why the machine is not fit to measure, if it is not.
pub open spec fn preflight_failure(
    required_power: Seq<char>,
    power_source: Seq<char>,
    thermal: Seq<char>,
    performance: Seq<char>,
    cpu_power: Seq<char>,
) -> Option<Seq<char>> {
    if power_source != required_power {
        Some(
            "benchmark requires '"@ + required_power + "', current source is '"@ + power_source
                + "'; connect power and retry"@,
        )
    } else if blocks_measurement(thermal) {
        Some("thermal preflight failed: "@ + thermal)
    } else if blocks_measurement(performance) {
        Some("performance preflight failed: "@ + performance)
    } else if blocks_measurement(cpu_power) {
        Some("CPU power preflight failed: "@ + cpu_power)
    } else {
        None
    }
}

fn blocks(value: &str) -> (b: bool)
    ensures
        b == blocks_measurement(value@),
{
    proof {
        reveal_strlit("unknown");
        reveal_strlit("no ");
    }
    if str_eq(value, "unknown") {
        return false;
    }
    let chars = str_chars(value);
    let lowered = lower_chars(chars.as_slice());
    let prefix = str_chars("no ");
    !chars_occur_at(lowered.as_slice(), prefix.as_slice(), 0)
}

fn joined(first: &str, second: &str) -> (s: String)
    ensures
        s@ == first@ + second@,
{
    let mut out: Vec<char> = Vec::new();
    push_str(&mut out, first);
    push_str(&mut out, second);
    string_from_chars(out.as_slice())
}

/// Checks that the machine runs on the required power source and reports
/// no thermal, performance or CPU power limit.
pub fn preflight(
    required_power: &str,
    power_source: &str,
    thermal_warning: &str,
    performance_warning: &str,
    cpu_power_status: &str,
) -> (r: Result<(), String>)
    ensures
        match preflight_failure(
            required_power@,
            power_source@,
            thermal_warning@,
            performance_warning@,
            cpu_power_status@,
        ) {
            Some(text) => r matches Err(e) && e@ == text,
            None => r is Ok,
        },
{
    if !str_eq(power_source, required_power) {
        let mut out: Vec<char> = Vec::new();
        push_str(&mut out, "benchmark requires '");
        push_str(&mut out, required_power);
        push_str(&mut out, "', current source is '");
        push_str(&mut out, power_source);
        push_str(&mut out, "'; connect power and retry");
        let text = string_from_chars(out.as_slice());
        return Err(text);
    }
    if blocks(thermal_warning) {
        return Err(joined("thermal preflight failed: ", thermal_warning));
    }
    if blocks(performance_warning) {
        return Err(joined("performance preflight failed: ", performance_warning));
    }
    if blocks(cpu_power_status) {
        return Err(joined("CPU power preflight failed: ", cpu_power_status));
    }
    Ok(())
}

/// Power source a baseline demands unless it names one.
pub const DEFAULT_REQUIRED_POWER: &'static str = "AC Power";

/// The baseline file schema this series reads.
pub const BASELINE_SCHEMA_VERSION: u32 = 1;

/// Why a baseline cannot judge this series, if it cannot: another schema,
/// or a fixture profile other than the one requested.
pub open spec fn baseline_problem(
    schema_version: u32,
    required_fixture: Option<Seq<char>>,
    fixture: Seq<char>,
) -> Option<Seq<char>> {
    if schema_version != BASELINE_SCHEMA_VERSION {
        Some("unsupported baseline schema "@ + decimal(schema_version as nat))
    } else {
        match required_fixture {
            Some(required) => if required != fixture {
                Some(
                    "baseline requires fixture '"@ + required + "' but series requested '"@
                        + fixture + "'"@,
                )
            } else {
                None
            },
            None => None,
        }
    }
}

/// Checks that a baseline fits the requested series.
pub fn check_baseline(schema_version: u32, required_fixture: Option<&str>, fixture: &str) -> (r:
    Result<(), String>)
    ensures
        match baseline_problem(
            schema_version,
            match required_fixture {
                Some(f) => Some(f@),
                None => None,
            },
            fixture@,
        ) {
            Some(text) => r matches Err(e) && e@ == text,
            None => r is Ok,
        },
{
    if schema_version != BASELINE_SCHEMA_VERSION {
        let mut out: Vec<char> = Vec::new();
        push_str(&mut out, "unsupported baseline schema ");
        push_decimal(&mut out, schema_version as u64);
        return Err(string_from_chars(out.as_slice()));
    }
    match required_fixture {
        Some(required) => {
            if !str_eq(required, fixture) {
                let mut out: Vec<char> = Vec::new();
                push_str(&mut out, "baseline requires fixture '");
                push_str(&mut out, required);
                push_str(&mut out, "' but series requested '");
                push_str(&mut out, fixture);
                push_str(&mut out, "'");
                return Err(string_from_chars(out.as_slice()));
            }
            Ok(())
        },
        None => Ok(()),
    }
}

/// The power source a baseline demands: the one it names, or AC power.
pub fn required_power_source(named: Option<&str>) -> (power: &str)
    ensures
        power@ == match named {
            Some(p) => p@,
            None => DEFAULT_REQUIRED_POWER@,
        },
{
    match named {
        Some(p) => p,
        None => DEFAULT_REQUIRED_POWER,
    }
}

/// Every process of a series gets its own case order: different runs have
/// different seeds, because the stride is odd and runs fit in 32 bits.
pub proof fn law_runs_get_distinct_seeds(base_seed: u64, first: u32, second: u32)
    requires
        first != second,
    ensures
        run_seed(base_seed, first) != run_seed(base_seed, second),
{
    assert(((base_seed + first * 0x9e37_79b9_7f4a_7c15u64) % 0x1_0000_0000_0000_0000) != ((
    base_seed + second * 0x9e37_79b9_7f4a_7c15u64) % 0x1_0000_0000_0000_0000)) by (bit_vector)
        requires
            first != second,
    ;
}

/// A build output named like a benchmark executable: it starts with the
/// benchmark's prefix and is not a dependency file.
pub open spec fn is_benchmark_executable(name: Seq<char>, prefix: Seq<char>) -> bool {
    occurs_at(name, prefix, 0) && !ends_with(name, ".d"@)
}

/// The newest benchmark executable among `candidates` (file name and
/// modification time): the one modified last, the later entry on a tie;
/// `None` when no candidate is named like one.
pub fn newest_benchmark_executable(candidates: &Vec<(String, u128)>, prefix: &str) -> (r: Option<
    usize,
>)
    ensures
        r is None <==> forall|j: int|
            0 <= j < candidates@.len() ==> !is_benchmark_executable(
                (#[trigger] candidates@[j]).0@,
                prefix@,
            ),
        r matches Some(i) ==> {
            &&& i < candidates@.len()
            &&& is_benchmark_executable(candidates@[i as int].0@, prefix@)
            &&& forall|j: int|
                0 <= j < candidates@.len() && is_benchmark_executable(
                    (#[trigger] candidates@[j]).0@,
                    prefix@,
                ) ==> candidates@[j].1 <= candidates@[i as int].1
            &&& forall|j: int|
                i < j < candidates@.len() && is_benchmark_executable(
                    (#[trigger] candidates@[j]).0@,
                    prefix@,
                ) ==> candidates@[j].1 < candidates@[i as int].1
        },
{
    let p = str_chars(prefix);
    let dep = str_chars(".d");
    proof {
        reveal_strlit(".d");
    }
    let mut best: Option<usize> = None;
    let mut k: usize = 0;
    while k < candidates.len()
        invariant
            k <= candidates@.len(),
            p@ == prefix@,
            dep@ == ".d"@,
            best is None <==> forall|j: int|
                0 <= j < k ==> !is_benchmark_executable((#[trigger] candidates@[j]).0@, prefix@),
            best matches Some(i) ==> {
                &&& i < k
                &&& is_benchmark_executable(candidates@[i as int].0@, prefix@)
                &&& forall|j: int|
                    0 <= j < k && is_benchmark_executable(
                        (#[trigger] candidates@[j]).0@,
                        prefix@,
                    ) ==> candidates@[j].1 <= candidates@[i as int].1
                &&& forall|j: int|
                    i < j < k && is_benchmark_executable(
                        (#[trigger] candidates@[j]).0@,
                        prefix@,
                    ) ==> candidates@[j].1 < candidates@[i as int].1
            },
        decreases candidates@.len() - k,
    {
        let name = str_chars(candidates[k].0.as_str());
        let matches = chars_occur_at(name.as_slice(), p.as_slice(), 0) && !chars_end_with(
            name.as_slice(),
            dep.as_slice(),
        );
        assert(matches == is_benchmark_executable(candidates@[k as int].0@, prefix@));
        if matches {
            match best {
                None => {
                    best = Some(k);
                },
                Some(i) => {
                    if candidates[k].1 >= candidates[i].1 {
                        best = Some(k);
                    }
                },
            }
        }
        k = k + 1;
    }
    best
}

} // verus!
