//! Consistency checks that decide whether several benchmark reports may be
//! summarized together. The floating-point checks of each case (finite,
//! non-negative statistics; raw samples that average to the reported mean)
//! arrive already evaluated; everything else is decided here.
use vstd::prelude::*;

use crate::benchmarking::{BenchmarkSummaryError, COMPOSITOR_BENCHMARK_SCHEMA_VERSION};
use crate::text::{ascii_lower, decimal, occurs_at, owned, push_decimal, push_str, str_eq, string_from_chars};

verus! {

/// What the summary checks of one measured case.
#[derive(Debug, Clone, PartialEq, Eq)]
pub struct CaseCheck {
    pub case_id: String,
    /// Every statistic is finite and non-negative, and the average and
    /// throughput are non-zero.
    pub statistics_valid: bool,
    pub sample_count: usize,
    /// Every raw sample is finite and non-negative.
    pub samples_valid: bool,
    /// The raw samples average to the reported mean within tolerance.
    pub average_matches: bool,
}

/// What the summary checks of one report.
#[derive(Debug, Clone, PartialEq, Eq)]
pub struct ReportFacts {
    pub schema_version: u32,
    pub hardware: String,
    pub target_arch: String,
    pub os_version: String,
    pub compiler: String,
    pub fixture_profile: String,
    pub build_hash: String,
    pub power_source: String,
    pub iterations: u32,
    pub warmup_iterations: u32,
    pub cases: Vec<CaseCheck>,
}

/// What the summary checks of a baseline file.
#[derive(Debug, Clone, Copy, PartialEq, Eq, Structural)]
pub struct BaselineFacts {
    pub schema_version: u32,
    /// The allowed regression is finite and non-negative.
    pub threshold_valid: bool,
}

pub open spec fn no_cases_text() -> Seq<char> {
    "benchmark report must contain measured cases"@
}

pub open spec fn invalid_statistics_text(id: Seq<char>) -> Seq<char> {
    "case '"@ + id + "' contains invalid statistics"@
}

pub open spec fn invalid_samples_text(id: Seq<char>) -> Seq<char> {
    "case '"@ + id + "' raw sample count or value is invalid"@
}

pub open spec fn average_mismatch_text(id: Seq<char>) -> Seq<char> {
    "case '"@ + id + "' average does not match raw samples"@
}

/// The first failing check among `cases`, each judged against `iterations`.
pub open spec fn first_case_failure(cases: Seq<CaseCheck>, iterations: u32) -> Option<Seq<char>>
    decreases cases.len(),
{
    if cases.len() == 0 {
        None
    } else {
        let c = cases[0];
        if !c.statistics_valid {
            Some(invalid_statistics_text(c.case_id@))
        } else if c.sample_count != iterations || !c.samples_valid {
            Some(invalid_samples_text(c.case_id@))
        } else if !c.average_matches {
            Some(average_mismatch_text(c.case_id@))
        } else {
            first_case_failure(cases.drop_first(), iterations)
        }
    }
}

/// Why a report is unusable, if it is.
pub open spec fn report_failure(report: ReportFacts) -> Option<Seq<char>> {
    if report.iterations == 0 || report.cases@.len() == 0 {
        Some(no_cases_text())
    } else {
        first_case_failure(report.cases@, report.iterations)
    }
}

fn case_message(prefix: &str, id: &str, suffix: &str) -> (m: String)
    ensures
        m@ == prefix@ + id@ + suffix@,
{
    let mut out: Vec<char> = Vec::new();
    push_str(&mut out, prefix);
    push_str(&mut out, id);
    push_str(&mut out, suffix);
    string_from_chars(out.as_slice())
}

/// Checks that a report measured every case and that each case's numbers
/// are usable.
pub fn validate_report(report: &ReportFacts) -> (r: Result<(), BenchmarkSummaryError>)
    ensures
        match report_failure(*report) {
            Some(m) => r matches Err(e) && e.0@ == m,
            None => r is Ok,
        },
{
    if report.iterations == 0 || report.cases.len() == 0 {
        return Err(BenchmarkSummaryError(owned("benchmark report must contain measured cases")));
    }
    let iterations = report.iterations as usize;
    let mut i: usize = 0;
    assert(report.cases@.skip(0) =~= report.cases@);
    while i < report.cases.len()
        invariant
            i <= report.cases@.len(),
            iterations == report.iterations,
            report_failure(*report) == first_case_failure(report.cases@, report.iterations),
            first_case_failure(report.cases@, report.iterations) == first_case_failure(
                report.cases@.skip(i as int),
                report.iterations,
            ),
        decreases report.cases@.len() - i,
    {
        assert(report.cases@.skip(i as int).drop_first() =~= report.cases@.skip(i + 1));
        assert(report.cases@.skip(i as int)[0] == report.cases@[i as int]);
        let case = &report.cases[i];
        if !case.statistics_valid {
            return Err(
                BenchmarkSummaryError(
                    case_message("case '", case.case_id.as_str(), "' contains invalid statistics"),
                ),
            );
        }
        if case.sample_count != iterations || !case.samples_valid {
            return Err(
                BenchmarkSummaryError(
                    case_message(
                        "case '",
                        case.case_id.as_str(),
                        "' raw sample count or value is invalid",
                    ),
                ),
            );
        }
        if !case.average_matches {
            return Err(
                BenchmarkSummaryError(
                    case_message(
                        "case '",
                        case.case_id.as_str(),
                        "' average does not match raw samples",
                    ),
                ),
            );
        }
        i = i + 1;
    }
    assert(report.cases@.skip(i as int) =~= Seq::<CaseCheck>::empty());
    Ok(())
}

/// The case ids of a report as a set.
pub open spec fn case_id_set(report: ReportFacts) -> Set<Seq<char>> {
    report.cases@.map_values(|c: CaseCheck| c.case_id@).to_set()
}

/// No case id occurs twice.
pub open spec fn case_ids_distinct(report: ReportFacts) -> bool {
    forall|i: int, j: int|
        0 <= i < j < report.cases@.len() ==> (#[trigger] report.cases@[i]).case_id@
            != (#[trigger] report.cases@[j]).case_id@
}

pub open spec fn duplicate_ids_text() -> Seq<char> {
    "report contains duplicate case ids"@
}

/// The case ids of a report, refusing duplicates.
pub fn case_ids(report: &ReportFacts) -> (r: Result<Vec<String>, BenchmarkSummaryError>)
    ensures
        case_ids_distinct(*report) ==> (r matches Ok(ids) && ids@.map_values(|s: String| s@)
            == report.cases@.map_values(|c: CaseCheck| c.case_id@)),
        !case_ids_distinct(*report) ==> (r matches Err(e) && e.0@ == duplicate_ids_text()),
{
    let mut ids: Vec<String> = Vec::new();
    let mut i: usize = 0;
    while i < report.cases.len()
        invariant
            i <= report.cases@.len(),
            ids@.map_values(|s: String| s@) == report.cases@.take(i as int).map_values(
                |c: CaseCheck| c.case_id@,
            ),
            forall|a: int, b: int|
                0 <= a < b < i ==> (#[trigger] report.cases@[a]).case_id@
                    != (#[trigger] report.cases@[b]).case_id@,
        decreases report.cases@.len() - i,
    {
        let id = report.cases[i].case_id.as_str();
        assert(ids@.map_values(|s: String| s@).len() == ids@.len());
        assert(report.cases@.take(i as int).map_values(|c: CaseCheck| c.case_id@).len() == i);
        let mut k: usize = 0;
        while k < ids.len()
            invariant
                k <= ids@.len(),
                ids@.len() == i,
                i < report.cases@.len(),
                id@ == report.cases@[i as int].case_id@,
                ids@.map_values(|s: String| s@) == report.cases@.take(i as int).map_values(
                    |c: CaseCheck| c.case_id@,
                ),
                forall|m: int| 0 <= m < k ==> (#[trigger] report.cases@[m]).case_id@ != id@,
            decreases ids@.len() - k,
        {
            assert(ids@.map_values(|s: String| s@)[k as int] == ids@[k as int]@);
            assert(report.cases@.take(i as int).map_values(|c: CaseCheck| c.case_id@)[k as int]
                == report.cases@[k as int].case_id@);
            if str_eq(ids[k].as_str(), id) {
                assert(!case_ids_distinct(*report)) by {
                    assert(report.cases@[k as int].case_id@ == report.cases@[i as int].case_id@);
                }
                return Err(BenchmarkSummaryError(owned("report contains duplicate case ids")));
            }
            k = k + 1;
        }
        let ghost before = ids@.map_values(|s: String| s@);
        ids.push(owned(id));
        assert(ids@.map_values(|s: String| s@) =~= before.push(id@));
        assert(report.cases@.take(i + 1).map_values(|c: CaseCheck| c.case_id@) =~= report.cases@.take(
            i as int,
        ).map_values(|c: CaseCheck| c.case_id@).push(report.cases@[i as int].case_id@));
        i = i + 1;
    }
    assert(report.cases@.take(report.cases@.len() as int) =~= report.cases@);
    Ok(ids)
}

/// The report layouts a summary can read.
pub open spec fn schema_supported(version: u32) -> bool {
    2 <= version <= COMPOSITOR_BENCHMARK_SCHEMA_VERSION
}

pub open spec fn unsupported_schema_text(version: u32) -> Seq<char> {
    "unsupported benchmark schema "@ + decimal(version as nat)
}

pub open spec fn unsupported_baseline_text(version: u32) -> Seq<char> {
    "unsupported baseline schema "@ + decimal(version as nat)
}

pub open spec fn disagreement_text() -> Seq<char> {
    "reports disagree on build, environment, fixture, or iteration policy"@
}

pub open spec fn case_mismatch_text() -> Seq<char> {
    "reports do not contain the same case ids"@
}

/// Two reports come from the same build, machine, fixture and iteration
/// policy.
pub open spec fn metadata_agrees(a: ReportFacts, b: ReportFacts) -> bool {
    &&& a.hardware@ == b.hardware@
    &&& a.target_arch@ == b.target_arch@
    &&& a.os_version@ == b.os_version@
    &&& a.compiler@ == b.compiler@
    &&& a.fixture_profile@ == b.fixture_profile@
    &&& a.build_hash@ == b.build_hash@
    &&& a.power_source@ == b.power_source@
    &&& a.iterations == b.iterations
    &&& a.warmup_iterations == b.warmup_iterations
}

/// Why a later report cannot join the first one's summary, if it cannot.
pub open spec fn later_report_failure(first: ReportFacts, report: ReportFacts) -> Option<Seq<char>> {
    if !schema_supported(report.schema_version) {
        Some(unsupported_schema_text(report.schema_version))
    } else if !metadata_agrees(report, first) {
        Some(disagreement_text())
    } else if report_failure(report) is Some {
        report_failure(report)
    } else if !case_ids_distinct(report) {
        Some(duplicate_ids_text())
    } else if case_id_set(report) != case_id_set(first) {
        Some(case_mismatch_text())
    } else {
        None
    }
}

/// The first later report that cannot join, in order.
pub open spec fn first_later_failure(first: ReportFacts, reports: Seq<ReportFacts>) -> Option<Seq<char>>
    decreases reports.len(),
{
    if reports.len() == 0 {
        None
    } else {
        match later_report_failure(first, reports[0]) {
            Some(m) => Some(m),
            None => first_later_failure(first, reports.drop_first()),
        }
    }
}

/// Why a set of reports cannot be summarized: the first failing check, in
/// the order the summary makes them.
pub open spec fn report_set_failure(
    reports: Seq<ReportFacts>,
    bootstrap_resamples: u32,
    baseline: Option<BaselineFacts>,
) -> Option<Seq<char>> {
    if reports.len() < 2 {
        Some("process-level summary requires at least two reports"@)
    } else if bootstrap_resamples < 100 {
        Some("bootstrap resamples must be at least 100"@)
    } else if baseline matches Some(b) && b.schema_version != 1 {
        Some(unsupported_baseline_text(baseline->0.schema_version))
    } else if baseline matches Some(b) && !b.threshold_valid {
        Some("baseline regression threshold must be finite and non-negative"@)
    } else if !schema_supported(reports[0].schema_version) {
        Some(unsupported_schema_text(reports[0].schema_version))
    } else if report_failure(reports[0]) is Some {
        report_failure(reports[0])
    } else if !case_ids_distinct(reports[0]) {
        Some(duplicate_ids_text())
    } else {
        first_later_failure(reports[0], reports.drop_first())
    }
}

fn text_eq(a: &String, b: &String) -> (eq: bool)
    ensures
        eq == (a@ == b@),
{
    str_eq(a.as_str(), b.as_str())
}

fn agrees(a: &ReportFacts, b: &ReportFacts) -> (r: bool)
    ensures
        r == metadata_agrees(*a, *b),
{
    text_eq(&a.hardware, &b.hardware) && text_eq(&a.target_arch, &b.target_arch) && text_eq(
        &a.os_version,
        &b.os_version,
    ) && text_eq(&a.compiler, &b.compiler) && text_eq(&a.fixture_profile, &b.fixture_profile)
        && text_eq(&a.build_hash, &b.build_hash) && text_eq(&a.power_source, &b.power_source)
        && a.iterations == b.iterations && a.warmup_iterations == b.warmup_iterations
}

fn contains_id(ids: &Vec<String>, id: &String) -> (b: bool)
    ensures
        b == ids@.map_values(|s: String| s@).contains(id@),
{
    let ghost views = ids@.map_values(|s: String| s@);
    let mut k: usize = 0;
    while k < ids.len()
        invariant
            k <= ids@.len(),
            views == ids@.map_values(|s: String| s@),
            forall|m: int| 0 <= m < k ==> views[m] != id@,
        decreases ids@.len() - k,
    {
        assert(views[k as int] == ids@[k as int]@);
        if text_eq(&ids[k], id) {
            return true;
        }
        k = k + 1;
    }
    false
}

fn includes_all(a: &Vec<String>, b: &Vec<String>) -> (r: bool)
    ensures
        r == (forall|i: int|
            0 <= i < a@.len() ==> b@.map_values(|s: String| s@).contains(#[trigger] a@[i]@)),
{
    let mut i: usize = 0;
    while i < a.len()
        invariant
            i <= a@.len(),
            forall|k: int| 0 <= k < i ==> b@.map_values(|s: String| s@).contains(#[trigger] a@[k]@),
        decreases a@.len() - i,
    {
        if !contains_id(b, &a[i]) {
            return false;
        }
        i = i + 1;
    }
    true
}

proof fn lemma_same_sets(a: Seq<String>, b: Seq<String>)
    ensures
        (a.map_values(|s: String| s@).to_set() == b.map_values(|s: String| s@).to_set()) == ((
        forall|i: int| 0 <= i < a.len() ==> b.map_values(|s: String| s@).contains(#[trigger] a[i]@))
            && (forall|i: int|
            0 <= i < b.len() ==> a.map_values(|s: String| s@).contains(#[trigger] b[i]@))),
{
    let va = a.map_values(|s: String| s@);
    let vb = b.map_values(|s: String| s@);
    if (forall|i: int| 0 <= i < a.len() ==> vb.contains(#[trigger] a[i]@)) && (forall|i: int|
        0 <= i < b.len() ==> va.contains(#[trigger] b[i]@)) {
        assert forall|x: Seq<char>| va.to_set().contains(x) == vb.to_set().contains(x) by {
            if va.contains(x) {
                let i = choose|i: int| 0 <= i < va.len() && va[i] == x;
                assert(a[i]@ == x);
            }
            if vb.contains(x) {
                let i = choose|i: int| 0 <= i < vb.len() && vb[i] == x;
                assert(b[i]@ == x);
            }
        }
        assert(va.to_set() =~= vb.to_set());
    }
    if va.to_set() == vb.to_set() {
        assert forall|i: int| 0 <= i < a.len() implies vb.contains(#[trigger] a[i]@) by {
            assert(va[i] == a[i]@);
            assert(va.to_set().contains(a[i]@));
        }
        assert forall|i: int| 0 <= i < b.len() implies va.contains(#[trigger] b[i]@) by {
            assert(vb[i] == b[i]@);
            assert(vb.to_set().contains(b[i]@));
        }
    }
}

/// Why `report` cannot join a summary started from `first`, whose distinct
/// ids are `expected`.
fn check_later_report(first: &ReportFacts, expected: &Vec<String>, report: &ReportFacts) -> (r: Result<
    (),
    BenchmarkSummaryError,
>)
    requires
        expected@.map_values(|s: String| s@) == first.cases@.map_values(|c: CaseCheck| c.case_id@),
    ensures
        match later_report_failure(*first, *report) {
            Some(m) => r matches Err(e) && e.0@ == m,
            None => r is Ok,
        },
{
    if report.schema_version < 2 || report.schema_version > COMPOSITOR_BENCHMARK_SCHEMA_VERSION {
        let mut out: Vec<char> = Vec::new();
        push_str(&mut out, "unsupported benchmark schema ");
        push_decimal(&mut out, report.schema_version as u64);
        return Err(BenchmarkSummaryError(string_from_chars(out.as_slice())));
    }
    if !agrees(report, first) {
        return Err(
            BenchmarkSummaryError(
                owned("reports disagree on build, environment, fixture, or iteration policy"),
            ),
        );
    }
    match validate_report(report) {
        Ok(()) => {},
        Err(e) => {
            return Err(e);
        },
    }
    let ids = match case_ids(report) {
        Ok(ids) => ids,
        Err(e) => {
            return Err(e);
        },
    };
    proof {
        lemma_same_sets(ids@, expected@);
        assert(case_id_set(*report) == ids@.map_values(|s: String| s@).to_set());
        assert(case_id_set(*first) == expected@.map_values(|s: String| s@).to_set());
    }
    if !includes_all(&ids, expected) || !includes_all(expected, &ids) {
        return Err(BenchmarkSummaryError(owned("reports do not contain the same case ids")));
    }
    Ok(())
}

/// Decides whether `reports` can be summarized together under
/// `bootstrap_resamples` and an optional baseline, reporting the first
/// failing check.
pub fn validate_report_set(
    reports: &[ReportFacts],
    bootstrap_resamples: u32,
    baseline: Option<BaselineFacts>,
) -> (r: Result<(), BenchmarkSummaryError>)
    ensures
        match report_set_failure(reports@, bootstrap_resamples, baseline) {
            Some(m) => r matches Err(e) && e.0@ == m,
            None => r is Ok,
        },
{
    if reports.len() < 2 {
        return Err(
            BenchmarkSummaryError(owned("process-level summary requires at least two reports")),
        );
    }
    if bootstrap_resamples < 100 {
        return Err(BenchmarkSummaryError(owned("bootstrap resamples must be at least 100")));
    }
    match baseline {
        Some(b) => {
            if b.schema_version != 1 {
                let mut out: Vec<char> = Vec::new();
                push_str(&mut out, "unsupported baseline schema ");
                push_decimal(&mut out, b.schema_version as u64);
                return Err(BenchmarkSummaryError(string_from_chars(out.as_slice())));
            }
            if !b.threshold_valid {
                return Err(
                    BenchmarkSummaryError(
                        owned("baseline regression threshold must be finite and non-negative"),
                    ),
                );
            }
        },
        None => {},
    }
    let first = &reports[0];
    if first.schema_version < 2 || first.schema_version > COMPOSITOR_BENCHMARK_SCHEMA_VERSION {
        let mut out: Vec<char> = Vec::new();
        push_str(&mut out, "unsupported benchmark schema ");
        push_decimal(&mut out, first.schema_version as u64);
        return Err(BenchmarkSummaryError(string_from_chars(out.as_slice())));
    }
    match validate_report(first) {
        Ok(()) => {},
        Err(e) => {
            return Err(e);
        },
    }
    let expected = match case_ids(first) {
        Ok(ids) => ids,
        Err(e) => {
            return Err(e);
        },
    };
    let ghost rest = reports@.drop_first();
    let mut i: usize = 1;
    assert(reports@.skip(1) =~= rest);
    assert(report_set_failure(reports@, bootstrap_resamples, baseline) == first_later_failure(
        *first,
        rest,
    ));
    while i < reports.len()
        invariant
            1 <= i <= reports@.len(),
            report_set_failure(reports@, bootstrap_resamples, baseline) == first_later_failure(
                *first,
                rest,
            ),
            reports@.len() >= 2,
            *first == reports@[0],
            expected@.map_values(|s: String| s@) == first.cases@.map_values(
                |c: CaseCheck| c.case_id@,
            ),
            first_later_failure(*first, rest) == first_later_failure(
                *first,
                reports@.skip(i as int),
            ),
        decreases reports@.len() - i,
    {
        assert(reports@.skip(i as int).drop_first() =~= reports@.skip(i + 1));
        assert(reports@.skip(i as int)[0] == reports@[i as int]);
        match check_later_report(first, &expected, &reports[i]) {
            Ok(()) => {},
            Err(e) => {
                return Err(e);
            },
        }
        i = i + 1;
    }
    assert(reports@.skip(i as int) =~= Seq::<ReportFacts>::empty());
    Ok(())
}

/// The power source a report ran on and the power sources its environment
/// snapshots (before and after the run, when taken) observed.
#[derive(Debug, Clone, PartialEq, Eq)]
pub struct PowerObservation {
    pub power_source: String,
    pub environment_power_sources: Vec<String>,
}

/// Every environment snapshot saw the report's own power source.
pub open spec fn power_stable(reports: Seq<PowerObservation>) -> bool {
    forall|r: int, k: int|
        0 <= r < reports.len() && 0 <= k < reports[r].environment_power_sources@.len()
            ==> (#[trigger] reports[r].environment_power_sources@[k])@ == reports[r].power_source@
}

/// Whether no report changed power source while it ran.
pub fn power_source_stable(reports: &[PowerObservation]) -> (b: bool)
    ensures
        b == power_stable(reports@),
{
    let mut r: usize = 0;
    while r < reports.len()
        invariant
            r <= reports@.len(),
            forall|q: int, k: int|
                0 <= q < r && 0 <= k < reports@[q].environment_power_sources@.len()
                    ==> (#[trigger] reports@[q].environment_power_sources@[k])@
                    == reports@[q].power_source@,
        decreases reports@.len() - r,
    {
        let report = &reports[r];
        let mut k: usize = 0;
        while k < report.environment_power_sources.len()
            invariant
                k <= report.environment_power_sources@.len(),
                r < reports@.len(),
                *report == reports@[r as int],
                forall|q: int, m: int|
                    0 <= q < r && 0 <= m < reports@[q].environment_power_sources@.len()
                        ==> (#[trigger] reports@[q].environment_power_sources@[m])@
                        == reports@[q].power_source@,
                forall|m: int|
                    0 <= m < k ==> (#[trigger] report.environment_power_sources@[m])@
                        == report.power_source@,
            decreases report.environment_power_sources@.len() - k,
        {
            if !text_eq(&report.environment_power_sources[k], &report.power_source) {
                return false;
            }
            k = k + 1;
        }
        r = r + 1;
    }
    true
}

/// What a baseline file requires of the reports compared with it.
#[derive(Debug, Clone, PartialEq, Eq)]
pub struct BaselineRequirements {
    pub required_power_source: Option<String>,
    pub required_fixture_profile: Option<String>,
}

/// A requirement that is absent or met.
pub open spec fn requirement_met(required: Option<String>, actual: Seq<char>) -> bool {
    match required {
        Some(r) => r@ == actual,
        None => true,
    }
}

/// The reports may be compared with the baseline: its power and fixture
/// requirements hold and the power source stayed put.
pub open spec fn comparable(
    baseline: Option<BaselineRequirements>,
    power_source: Seq<char>,
    fixture_profile: Seq<char>,
    stable: bool,
) -> bool {
    match baseline {
        Some(b) => requirement_met(b.required_power_source, power_source) && requirement_met(
            b.required_fixture_profile,
            fixture_profile,
        ) && stable,
        None => false,
    }
}

fn meets(required: &Option<String>, actual: &String) -> (b: bool)
    ensures
        b == requirement_met(*required, actual@),
{
    match required {
        Some(r) => text_eq(r, actual),
        None => true,
    }
}

/// Whether the summary's ratios may be judged against the baseline.
pub fn comparable_to_baseline(
    baseline: Option<&BaselineRequirements>,
    power_source: &String,
    fixture_profile: &String,
    power_source_stable: bool,
) -> (b: bool)
    ensures
        b == comparable(
            match baseline {
                Some(x) => Some(*x),
                None => None,
            },
            power_source@,
            fixture_profile@,
            power_source_stable,
        ),
{
    match baseline {
        Some(b) => meets(&b.required_power_source, power_source) && meets(
            &b.required_fixture_profile,
            fixture_profile,
        ) && power_source_stable,
        None => false,
    }
}

/// The warnings a summary adds after the environment warnings: an unstable
/// power source, the nature of a fixed baseline, and each unmet baseline
/// requirement, in that order.
pub open spec fn summary_warnings(
    stable: bool,
    baseline: Option<BaselineRequirements>,
    power_source: Seq<char>,
    fixture_profile: Seq<char>,
) -> Seq<Seq<char>> {
    let unstable: Seq<Seq<char>> = if stable {
        Seq::empty()
    } else {
        seq!["power source changed within at least one benchmark process"@]
    };
    match baseline {
        None => unstable,
        Some(b) => {
            let with_note = unstable.push(
                "baseline is a fixed point estimate; ratio intervals include current process variation only"@,
            );
            let with_power = match b.required_power_source {
                Some(r) => if r@ != power_source {
                    with_note.push(
                        "baseline requires `"@ + r@ + "` but reports use `"@ + power_source + "`"@,
                    )
                } else {
                    with_note
                },
                None => with_note,
            };
            match b.required_fixture_profile {
                Some(r) => if r@ != fixture_profile {
                    with_power.push(
                        "baseline requires fixture `"@ + r@ + "` but reports use `"@
                            + fixture_profile + "`"@,
                    )
                } else {
                    with_power
                },
                None => with_power,
            }
        },
    }
}

fn requirement_warning(lead: &str, required: &String, actual: &String) -> (w: String)
    ensures
        w@ == lead@ + required@ + "` but reports use `"@ + actual@ + "`"@,
{
    let mut out: Vec<char> = Vec::new();
    push_str(&mut out, lead);
    push_str(&mut out, required.as_str());
    push_str(&mut out, "` but reports use `");
    push_str(&mut out, actual.as_str());
    push_str(&mut out, "`");
    string_from_chars(out.as_slice())
}

/// Appends the summary's own warnings to `warnings`.
pub fn push_summary_warnings(
    warnings: &mut Vec<String>,
    power_source_stable: bool,
    baseline: Option<&BaselineRequirements>,
    power_source: &String,
    fixture_profile: &String,
)
    ensures
        final(warnings)@.map_values(|s: String| s@) == old(warnings)@.map_values(|s: String| s@)
            + summary_warnings(
            power_source_stable,
            match baseline {
                Some(x) => Some(*x),
                None => None,
            },
            power_source@,
            fixture_profile@,
        ),
{
    let ghost start = warnings@.map_values(|s: String| s@);
    if !power_source_stable {
        warnings.push(owned("power source changed within at least one benchmark process"));
    }
    let ghost unstable: Seq<Seq<char>> = if power_source_stable {
        Seq::empty()
    } else {
        seq!["power source changed within at least one benchmark process"@]
    };
    assert(warnings@.map_values(|s: String| s@) =~= start + unstable);
    match baseline {
        None => {},
        Some(b) => {
            warnings.push(
                owned(
                    "baseline is a fixed point estimate; ratio intervals include current process variation only",
                ),
            );
            let ghost with_note = unstable.push(
                "baseline is a fixed point estimate; ratio intervals include current process variation only"@,
            );
            assert(warnings@.map_values(|s: String| s@) =~= start + with_note);
            let ghost mut with_power = with_note;
            match &b.required_power_source {
                Some(r) => {
                    if !text_eq(r, power_source) {
                        warnings.push(requirement_warning("baseline requires `", r, power_source));
                        proof {
                            with_power = with_note.push(
                                "baseline requires `"@ + r@ + "` but reports use `"@ + power_source@
                                    + "`"@,
                            );
                        }
                    }
                },
                None => {},
            }
            assert(warnings@.map_values(|s: String| s@) =~= start + with_power);
            match &b.required_fixture_profile {
                Some(r) => {
                    if !text_eq(r, fixture_profile) {
                        let ghost before = warnings@.map_values(|s: String| s@);
                        warnings.push(
                            requirement_warning("baseline requires fixture `", r, fixture_profile),
                        );
                        assert(warnings@.map_values(|s: String| s@) =~= before.push(
                            "baseline requires fixture `"@ + r@ + "` but reports use `"@
                                + fixture_profile@ + "`"@,
                        ));
                    }
                },
                None => {},
            }
        },
    }
}

/// Lexicographic order of texts by character value (the order of their
/// UTF-8 bytes).
pub open spec fn text_lt(a: Seq<char>, b: Seq<char>) -> bool
    decreases a.len(),
{
    if a.len() == 0 {
        b.len() > 0
    } else if b.len() == 0 {
        false
    } else if a[0] != b[0] {
        a[0] < b[0]
    } else {
        text_lt(a.drop_first(), b.drop_first())
    }
}

proof fn lemma_text_lt_irreflexive(a: Seq<char>)
    ensures
        !text_lt(a, a),
    decreases a.len(),
{
    if a.len() > 0 {
        lemma_text_lt_irreflexive(a.drop_first());
    }
}

proof fn lemma_text_lt_total(a: Seq<char>, b: Seq<char>)
    ensures
        a == b || text_lt(a, b) || text_lt(b, a),
    decreases a.len(),
{
    if a.len() > 0 && b.len() > 0 {
        if a[0] == b[0] {
            lemma_text_lt_total(a.drop_first(), b.drop_first());
            if a.drop_first() == b.drop_first() {
                assert(a =~= seq![a[0]] + a.drop_first());
                assert(b =~= seq![b[0]] + b.drop_first());
            }
        }
    } else if a.len() == 0 && b.len() == 0 {
        assert(a =~= b);
    }
}

proof fn lemma_text_lt_transitive(a: Seq<char>, b: Seq<char>, c: Seq<char>)
    requires
        text_lt(a, b),
        text_lt(b, c),
    ensures
        text_lt(a, c),
    decreases a.len(),
{
    if a.len() > 0 && b.len() > 0 && c.len() > 0 {
        if a[0] == b[0] && b[0] == c[0] {
            lemma_text_lt_transitive(a.drop_first(), b.drop_first(), c.drop_first());
        }
    }
}

/// An environment value worth a warning: known, and not a "no ..." line.
pub open spec fn warning_worthy(value: Seq<char>) -> bool {
    value != "unknown"@ && !occurs_at(ascii_lower(value), "no "@, 0)
}

/// How often `value` was observed among `values`, counting only values
/// worth a warning.
pub open spec fn observations(values: Seq<Seq<char>>, value: Seq<char>) -> nat
    decreases values.len(),
{
    if values.len() == 0 {
        0
    } else {
        observations(values.drop_last(), value) + (if values.last() == value && warning_worthy(
            value,
        ) {
            1nat
        } else {
            0nat
        })
    }
}

/// A table of observed warnings: strictly ascending, each with its count,
/// and listing every warning observed at least once.
pub open spec fn is_warning_table(table: Seq<(Seq<char>, nat)>, values: Seq<Seq<char>>) -> bool {
    &&& forall|i: int, j: int| 0 <= i < j < table.len() ==> text_lt(table[i].0, table[j].0)
    &&& forall|i: int|
        0 <= i < table.len() ==> #[trigger] table[i].1 == observations(values, table[i].0)
            && table[i].1 > 0
    &&& forall|v: Seq<char>|
        observations(values, v) > 0 ==> exists|i: int| 0 <= i < table.len() && #[trigger] table[i].0 == v
}

/// The text of one warning line.
pub open spec fn warning_line(entry: (Seq<char>, nat)) -> Seq<char> {
    entry.0 + " ("@ + decimal(entry.1) + " observations)"@
}

fn text_less(a: &Vec<char>, b: &Vec<char>) -> (r: bool)
    ensures
        r == text_lt(a@, b@),
{
    let mut i: usize = 0;
    assert(a@.skip(0) =~= a@);
    assert(b@.skip(0) =~= b@);
    while i < a.len() && i < b.len()
        invariant
            i <= a@.len(),
            i <= b@.len(),
            text_lt(a@, b@) == text_lt(a@.skip(i as int), b@.skip(i as int)),
        decreases a@.len() - i,
    {
        assert(a@.skip(i as int)[0] == a@[i as int]);
        assert(b@.skip(i as int)[0] == b@[i as int]);
        if a[i] != b[i] {
            return a[i] < b[i];
        }
        assert(a@.skip(i as int).drop_first() =~= a@.skip(i + 1));
        assert(b@.skip(i as int).drop_first() =~= b@.skip(i + 1));
        i = i + 1;
    }
    i == a.len() && i < b.len()
}

fn is_warning_worthy(value: &Vec<char>) -> (b: bool)
    ensures
        b == warning_worthy(value@),
{
    let unknown = crate::text::str_chars("unknown");
    let no = crate::text::str_chars("no ");
    let lower = crate::text::lower_chars(value.as_slice());
    !crate::text::chars_eq(value.as_slice(), unknown.as_slice()) && !crate::text::chars_occur_at(
        lower.as_slice(),
        no.as_slice(),
        0,
    )
}

/// Texts by view.
pub open spec fn string_views(values: Seq<String>) -> Seq<Seq<char>> {
    values.map_values(|s: String| s@)
}

/// The table kept while counting: keys ascending, counts current.
pub open spec fn counting_state(keys: Seq<Vec<char>>, counts: Seq<usize>, seen: Seq<Seq<char>>, bound: nat) -> bool {
    &&& keys.len() == counts.len()
    &&& forall|a: int, b: int| 0 <= a < b < keys.len() ==> text_lt(keys[a]@, keys[b]@)
    &&& forall|m: int|
        0 <= m < keys.len() ==> #[trigger] counts[m] == observations(seen, keys[m]@) && counts[m]
            > 0 && counts[m] <= bound
    &&& forall|v: Seq<char>|
        observations(seen, v) > 0 ==> exists|m: int| 0 <= m < keys.len() && #[trigger] keys[m]@ == v
}

/// Adds one observation of `value` to the table.
fn count_value(keys: &mut Vec<Vec<char>>, counts: &mut Vec<usize>, value: Vec<char>, Ghost(seen): Ghost<Seq<Seq<char>>>, Ghost(bound): Ghost<nat>)
    requires
        counting_state(old(keys)@, old(counts)@, seen, bound),
        bound < usize::MAX,
        warning_worthy(value@),
    ensures
        counting_state(final(keys)@, final(counts)@, seen.push(value@), bound + 1),
{
    let ghost next = seen.push(value@);
    assert(next.drop_last() =~= seen);
    assert forall|v: Seq<char>| #[trigger] observations(next, v) == observations(seen, v) + (if v
        == value@ {
        1nat
    } else {
        0nat
    }) by {}
    let ghost old_keys = keys@;
    let ghost old_counts = counts@;
    let mut p: usize = 0;
    while p < keys.len() && text_less(&keys[p], &value)
        invariant
            p <= keys@.len(),
            keys@ == old_keys,
            forall|m: int| 0 <= m < p ==> text_lt(keys@[m]@, value@),
        decreases keys@.len() - p,
    {
        p = p + 1;
    }
    if p < keys.len() && crate::text::chars_eq(keys[p].as_slice(), value.as_slice()) {
        let current = counts[p];
        counts.set(p, current + 1);
        proof {
            assert forall|m: int| 0 <= m < old_keys.len() && m != p implies old_keys[m]@ != value@ by {
                if m < p {
                    lemma_text_lt_irreflexive(value@);
                } else {
                    assert(text_lt(old_keys[p as int]@, old_keys[m]@));
                    lemma_text_lt_irreflexive(value@);
                }
            }
            assert forall|v: Seq<char>| observations(next, v) > 0 implies exists|m: int|
                0 <= m < keys@.len() && #[trigger] keys@[m]@ == v by {
                if v == value@ {
                    assert(keys@[p as int]@ == v);
                }
            }
        }
    } else {
        proof {
            if p < keys@.len() {
                lemma_text_lt_total(keys@[p as int]@, value@);
            }
            assert forall|m: int| 0 <= m < old_keys.len() implies old_keys[m]@ != value@ by {
                if m < p {
                    lemma_text_lt_irreflexive(value@);
                } else if m > p {
                    lemma_text_lt_transitive(value@, old_keys[p as int]@, old_keys[m]@);
                    lemma_text_lt_irreflexive(value@);
                }
            }
            assert(observations(seen, value@) == 0) by {
                if observations(seen, value@) > 0 {
                    let m = choose|m: int| 0 <= m < old_keys.len() && #[trigger] old_keys[m]@ == value@;
                }
            }
        }
        keys.insert(p, value);
        counts.insert(p, 1);
        proof {
            assert forall|a: int, b: int| 0 <= a < b < keys@.len() implies text_lt(
                keys@[a]@,
                keys@[b]@,
            ) by {
                if b < p {
                    assert(keys@[a] == old_keys[a] && keys@[b] == old_keys[b]);
                } else if b == p {
                    assert(keys@[a] == old_keys[a]);
                } else if a == p {
                    assert(keys@[b] == old_keys[b - 1]);
                    if b - 1 > p {
                        lemma_text_lt_transitive(keys@[p as int]@, old_keys[p as int]@, old_keys[b - 1]@);
                    }
                } else if a < p {
                    assert(keys@[a] == old_keys[a] && keys@[b] == old_keys[b - 1]);
                    lemma_text_lt_transitive(old_keys[a]@, keys@[p as int]@, old_keys[p as int]@);
                    if b - 1 > p {
                        lemma_text_lt_transitive(old_keys[a]@, old_keys[p as int]@, old_keys[b - 1]@);
                    }
                } else {
                    assert(keys@[a] == old_keys[a - 1] && keys@[b] == old_keys[b - 1]);
                }
            }
            assert forall|m: int| 0 <= m < keys@.len() implies #[trigger] counts@[m] == observations(
                next,
                keys@[m]@,
            ) && counts@[m] > 0 && counts@[m] <= bound + 1 by {
                if m < p {
                    assert(keys@[m] == old_keys[m] && counts@[m] == old_counts[m]);
                } else if m > p {
                    assert(keys@[m] == old_keys[m - 1] && counts@[m] == old_counts[m - 1]);
                }
            }
            assert forall|v: Seq<char>| observations(next, v) > 0 implies exists|m: int|
                0 <= m < keys@.len() && #[trigger] keys@[m]@ == v by {
                if v == value@ {
                    assert(keys@[p as int]@ == v);
                } else {
                    let m = choose|m: int| 0 <= m < old_keys.len() && #[trigger] old_keys[m]@ == v;
                    if m < p {
                        assert(keys@[m] == old_keys[m]);
                    } else {
                        assert(keys@[m + 1] == old_keys[m]);
                    }
                }
            }
        }
    }
}

/// Counts each warning-worthy environment value and lists them in text
/// order as `{value} ({count} observations)`.
pub fn environment_warnings(values: &[String]) -> (warnings: Vec<String>)
    ensures
        exists|table: Seq<(Seq<char>, nat)>|
            #[trigger] is_warning_table(table, string_views(values@)) && warnings@.map_values(
                |s: String| s@,
            ) == table.map_values(|e: (Seq<char>, nat)| warning_line(e)),
{
    let ghost views = string_views(values@);
    let mut keys: Vec<Vec<char>> = Vec::new();
    let mut counts: Vec<usize> = Vec::new();
    let mut i: usize = 0;
    assert(views.take(0) =~= Seq::<Seq<char>>::empty());
    while i < values.len()
        invariant
            i <= values@.len(),
            views == string_views(values@),
            counting_state(keys@, counts@, views.take(i as int), i as nat),
        decreases values@.len() - i,
    {
        let ghost prefix = views.take(i as int);
        assert(views.take(i + 1) =~= prefix.push(values@[i as int]@));
        let value = crate::text::str_chars(values[i].as_str());
        if is_warning_worthy(&value) {
            count_value(&mut keys, &mut counts, value, Ghost(prefix), Ghost(i as nat));
        } else {
            proof {
                let next = prefix.push(value@);
                assert(next.drop_last() =~= prefix);
                assert forall|v: Seq<char>| #[trigger] observations(next, v) == observations(
                    prefix,
                    v,
                ) by {}
            }
        }
        i = i + 1;
    }
    assert(views.take(values@.len() as int) =~= views);
    let ghost table = Seq::new(keys@.len(), |m: int| (keys@[m]@, counts@[m] as nat));
    let mut warnings: Vec<String> = Vec::new();
    let mut k: usize = 0;
    while k < keys.len()
        invariant
            k <= keys@.len(),
            keys@.len() == counts@.len(),
            table == Seq::new(keys@.len(), |m: int| (keys@[m]@, counts@[m] as nat)),
            warnings@.map_values(|s: String| s@) == table.take(k as int).map_values(
                |e: (Seq<char>, nat)| warning_line(e),
            ),
        decreases keys@.len() - k,
    {
        let mut out: Vec<char> = Vec::new();
        let key = &keys[k];
        let mut c: usize = 0;
        while c < key.len()
            invariant
                c <= key@.len(),
                out@ == key@.take(c as int),
            decreases key@.len() - c,
        {
            out.push(key[c]);
            c = c + 1;
            assert(out@ =~= key@.take(c as int));
        }
        assert(key@.take(key@.len() as int) =~= key@);
        push_str(&mut out, " (");
        push_decimal(&mut out, counts[k] as u64);
        push_str(&mut out, " observations)");
        assert(out@ == warning_line(table[k as int]));
        let ghost before = warnings@.map_values(|s: String| s@);
        warnings.push(string_from_chars(out.as_slice()));
        assert(warnings@.map_values(|s: String| s@) =~= before.push(warning_line(table[k as int])));
        assert(table.take(k + 1).map_values(|e: (Seq<char>, nat)| warning_line(e)) =~= table.take(
            k as int,
        ).map_values(|e: (Seq<char>, nat)| warning_line(e)).push(warning_line(table[k as int])));
        k = k + 1;
    }
    assert(table.take(keys@.len() as int) =~= table);
    proof {
        assert forall|a: int, b: int| 0 <= a < b < table.len() implies text_lt(
            table[a].0,
            table[b].0,
        ) by {}
        assert forall|a: int| 0 <= a < table.len() implies #[trigger] table[a].1 == observations(
            views,
            table[a].0,
        ) && table[a].1 > 0 by {}
        assert forall|v: Seq<char>| observations(views, v) > 0 implies exists|a: int|
            0 <= a < table.len() && #[trigger] table[a].0 == v by {
            let m = choose|m: int| 0 <= m < keys@.len() && #[trigger] keys@[m]@ == v;
            assert(table[m].0 == v);
        }
    }
    assert(is_warning_table(table, views));
    warnings
}

/// Case ids in non-decreasing text order.
pub open spec fn ids_in_order(ids: Seq<Seq<char>>, order: Seq<usize>) -> bool {
    forall|a: int, b: int|
        0 <= a < b < order.len() ==> !text_lt(ids[order[b] as int], ids[order[a] as int])
}

/// Cases with equal ids keep their report order.
pub open spec fn ties_in_report_order(ids: Seq<Seq<char>>, order: Seq<usize>) -> bool {
    forall|a: int, b: int|
        0 <= a < b < order.len() && ids[order[a] as int] == ids[order[b] as int] ==> order[a]
            < order[b]
}

/// The order in which summarized cases are listed: by case id, cases with
/// equal ids in report order (a stable sort by id). The result lists the
/// positions of `case_ids`.
pub fn case_id_order(case_ids: &Vec<String>) -> (order: Vec<usize>)
    ensures
        crate::benchmarking::is_permutation(order@, case_ids@.len()),
        ids_in_order(case_ids@.map_values(|s: String| s@), order@),
        ties_in_report_order(case_ids@.map_values(|s: String| s@), order@),
{
    let ghost ids = case_ids@.map_values(|s: String| s@);
    let mut keys: Vec<Vec<char>> = Vec::new();
    let mut k: usize = 0;
    while k < case_ids.len()
        invariant
            k <= case_ids@.len(),
            keys@.len() == k,
            ids == case_ids@.map_values(|s: String| s@),
            forall|i: int| 0 <= i < k ==> #[trigger] keys@[i]@ == ids[i],
        decreases case_ids@.len() - k,
    {
        keys.push(crate::text::str_chars(case_ids[k].as_str()));
        k = k + 1;
    }
    let mut order: Vec<usize> = Vec::new();
    let mut k: usize = 0;
    while k < keys.len()
        invariant
            k <= keys@.len(),
            keys@.len() == case_ids@.len(),
            ids == case_ids@.map_values(|s: String| s@),
            forall|i: int| 0 <= i < keys@.len() ==> #[trigger] keys@[i]@ == ids[i],
            crate::benchmarking::is_permutation(order@, k as nat),
            ids_in_order(ids, order@),
            ties_in_report_order(ids, order@),
        decreases keys@.len() - k,
    {
        let mut p: usize = order.len();
        while p > 0 && text_less(&keys[k], &keys[order[p - 1]])
            invariant
                p <= order@.len(),
                k < keys@.len(),
                forall|i: int| 0 <= i < keys@.len() ==> #[trigger] keys@[i]@ == ids[i],
                crate::benchmarking::is_permutation(order@, k as nat),
                forall|q: int| p <= q < order@.len() ==> text_lt(ids[k as int], ids[order@[q] as int]),
            decreases p,
        {
            p = p - 1;
        }
        proof {
            if p > 0 {
                assert(!text_lt(ids[k as int], ids[order@[p - 1] as int]));
            }
            assert forall|q: int| 0 <= q < p implies !text_lt(ids[k as int], ids[order@[q] as int]) by {
                if q < p - 1 {
                    let x = ids[order@[q] as int];
                    let y = ids[order@[p - 1] as int];
                    let z = ids[k as int];
                    assert(!text_lt(y, x));
                    lemma_text_lt_total(x, y);
                    lemma_text_lt_total(y, z);
                    if text_lt(z, x) {
                        if text_lt(x, y) {
                            lemma_text_lt_transitive(z, x, y);
                        }
                    }
                }
            }
        }
        let ghost before = order@;
        order.insert(p, k);
        proof {
            assert(order@ == before.insert(p as int, k));
            assert forall|a: int, b: int| 0 <= a < b < order@.len() implies !text_lt(
                ids[order@[b] as int],
                ids[order@[a] as int],
            ) by {
                if a < p as int && b == p as int {
                    let x = ids[before[a] as int];
                    let z = ids[k as int];
                    assert(!text_lt(z, x));
                } else if a == p as int && b > p as int {
                    let z = ids[k as int];
                    let y = ids[before[b - 1] as int];
                    assert(text_lt(z, y));
                    lemma_text_lt_total(z, y);
                    if text_lt(y, z) {
                        lemma_text_lt_transitive(y, z, y);
                        lemma_text_lt_irreflexive(y);
                    }
                } else if a < p as int && b > p as int {
                    assert(!text_lt(ids[before[b - 1] as int], ids[before[a] as int]));
                } else if a > p as int {
                    assert(!text_lt(ids[before[b - 1] as int], ids[before[a - 1] as int]));
                } else {
                    assert(!text_lt(ids[before[b] as int], ids[before[a] as int]));
                }
            }
            assert forall|a: int, b: int|
                0 <= a < b < order@.len() && ids[order@[a] as int] == ids[order@[b] as int] implies order@[a]
                < order@[b] by {
                if a == p as int {
                    let z = ids[k as int];
                    assert(text_lt(z, ids[before[b - 1] as int]));
                    lemma_text_lt_irreflexive(z);
                } else if b == p as int {
                    assert(before[a] < k);
                } else if a < p as int && b > p as int {
                    assert(before[a] < before[b - 1]);
                } else if a > p as int {
                    assert(before[a - 1] < before[b - 1]);
                } else {
                    assert(before[a] < before[b]);
                }
            }
            assert forall|i: int, j: int| 0 <= i < j < order@.len() implies order@[i] != order@[j] by {
                if i == p as int {
                    assert(before[j - 1] < k);
                } else if j == p as int {
                    assert(before[i] < k);
                }
            }
        }
        k = k + 1;
    }
    order
}

} // verus!
