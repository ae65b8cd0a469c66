//! The release manifest's decisions: which evidence a release needs, the
//! signing checks, and metadata read out of tool output.
use vstd::prelude::*;

use crate::text::{
    chars_occur_at, chars_slice, occurs_at, owned, push_str, split_whitespace_chars, str_chars, str_eq,
    string_from_chars, trim, trim_bounds, whitespace_tokens,
};

verus! {

/// A line without the carriage return of a `\r\n` ending.
pub open spec fn without_cr(line: Seq<char>) -> Seq<char> {
    if line.len() > 0 && line.last() == '\r' {
        line.drop_last()
    } else {
        line
    }
}

/// Lines completed so far and the line being read, after scanning `s`.
pub open spec fn scan_lines(s: Seq<char>) -> (Seq<Seq<char>>, Seq<char>)
    decreases s.len(),
{
    if s.len() == 0 {
        (Seq::empty(), Seq::empty())
    } else {
        let (done, current) = scan_lines(s.drop_last());
        if s.last() == '\n' {
            (done.push(without_cr(current)), Seq::empty())
        } else {
            (done, current.push(s.last()))
        }
    }
}

/// The lines of a text as `str::lines` yields them: split at `\n`, a
/// `\r\n` ending counts as one, and a final line ending is optional.
pub open spec fn text_lines(s: Seq<char>) -> Seq<Seq<char>> {
    let (done, current) = scan_lines(s);
    if current.len() > 0 {
        done.push(current)
    } else {
        done
    }
}

/// The text after `prefix` on the first line that, trimmed, starts with it;
/// the value is trimmed too.
pub open spec fn first_prefixed_value(lines: Seq<Seq<char>>, prefix: Seq<char>) -> Option<
    Seq<char>,
>
    decreases lines.len(),
{
    if lines.len() == 0 {
        None
    } else if occurs_at(trim(lines[0]), prefix, 0) {
        Some(trim(trim(lines[0]).skip(prefix.len() as int)))
    } else {
        first_prefixed_value(lines.drop_first(), prefix)
    }
}

/// The value of a `prefix` line of `text`, unless it is empty.
pub open spec fn prefixed_value(text: Seq<char>, prefix: Seq<char>) -> Option<Seq<char>> {
    match first_prefixed_value(text_lines(text), prefix) {
        Some(v) => if v.len() > 0 {
            Some(v)
        } else {
            None
        },
        None => None,
    }
}

/// Splits a text into lines.
pub fn lines_of(text: &str) -> (lines: Vec<Vec<char>>)
    ensures
        lines@.map_values(|l: Vec<char>| l@) == text_lines(text@),
{
    let chars = str_chars(text);
    let mut lines: Vec<Vec<char>> = Vec::new();
    let mut current: Vec<char> = Vec::new();
    let mut i: usize = 0;
    while i < chars.len()
        invariant
            i <= chars@.len(),
            chars@ == text@,
            (lines@.map_values(|l: Vec<char>| l@), current@) == scan_lines(chars@.take(i as int)),
        decreases chars@.len() - i,
    {
        let c = chars[i];
        let ghost prefix = chars@.take(i as int);
        assert(chars@.take(i + 1).drop_last() =~= prefix);
        assert(chars@.take(i + 1).last() == c);
        if c == '\n' {
            let ghost before = lines@.map_values(|l: Vec<char>| l@);
            let mut finished = current;
            let n = finished.len();
            if n > 0 && finished[n - 1] == '\r' {
                finished.pop();
                assert(finished@ =~= without_cr(scan_lines(prefix).1));
            }
            lines.push(finished);
            assert(lines@.map_values(|l: Vec<char>| l@) =~= before.push(
                without_cr(scan_lines(prefix).1),
            ));
            current = Vec::new();
            assert(current@ =~= Seq::<char>::empty());
        } else {
            current.push(c);
        }
        i = i + 1;
    }
    assert(chars@.take(chars@.len() as int) =~= chars@);
    if current.len() > 0 {
        let ghost before = lines@.map_values(|l: Vec<char>| l@);
        lines.push(current);
        assert(lines@.map_values(|l: Vec<char>| l@) =~= before.push(scan_lines(text@).1));
    }
    lines
}

/// The trimmed value after `prefix` on the first line of `text` that starts
/// with it (after trimming), or `None` when there is no such line or its
/// value is empty.
pub fn value_after_prefix(text: &str, prefix: &str) -> (r: Option<String>)
    ensures
        match prefixed_value(text@, prefix@) {
            Some(v) => r matches Some(s) && s@ == v,
            None => r is None,
        },
{
    let lines = lines_of(text);
    let ghost views = lines@.map_values(|l: Vec<char>| l@);
    let p = str_chars(prefix);
    let mut i: usize = 0;
    assert(views.skip(0) =~= views);
    while i < lines.len()
        invariant
            i <= lines@.len(),
            views == lines@.map_values(|l: Vec<char>| l@),
            views == text_lines(text@),
            p@ == prefix@,
            first_prefixed_value(views, prefix@) == first_prefixed_value(
                views.skip(i as int),
                prefix@,
            ),
        decreases lines@.len() - i,
    {
        let line = &lines[i];
        let (start, end) = trim_bounds(line.as_slice());
        let trimmed = chars_slice(line.as_slice(), start, end);
        assert(views.skip(i as int)[0] == line@);
        assert(views.skip(i as int).drop_first() =~= views.skip(i + 1));
        if chars_occur_at(trimmed.as_slice(), p.as_slice(), 0) {
            let rest = chars_slice(trimmed.as_slice(), p.len(), trimmed.len());
            assert(rest@ =~= trim(line@).skip(prefix@.len() as int));
            let (vs, ve) = trim_bounds(rest.as_slice());
            if vs == ve {
                return None;
            }
            let value = chars_slice(rest.as_slice(), vs, ve);
            return Some(string_from_chars(value.as_slice()));
        }
        i = i + 1;
    }
    assert(views.skip(i as int) =~= Seq::<Seq<char>>::empty());
    None
}

/// A signing Team ID: the `TeamIdentifier=` value of `codesign` details,
/// unless it reads `not set`.
pub open spec fn team_identifier_of(details: Seq<char>) -> Option<Seq<char>> {
    match prefixed_value(details, "TeamIdentifier="@) {
        Some(v) => if v == "not set"@ {
            None
        } else {
            Some(v)
        },
        None => None,
    }
}

/// The Team ID a signature carries, from `codesign --display` details.
pub fn team_identifier(details: &str) -> (r: Option<String>)
    ensures
        match team_identifier_of(details@) {
            Some(v) => r matches Some(s) && s@ == v,
            None => r is None,
        },
{
    let prefix = "TeamIdentifier=";
    let unset = "not set";
    proof {
        reveal_strlit("TeamIdentifier=");
        reveal_strlit("not set");
    }
    match value_after_prefix(details, prefix) {
        Some(value) => if str_eq(value.as_str(), unset) {
            None
        } else {
            Some(value)
        },
        None => None,
    }
}

/// The refusal of a bundle whose nested signatures disagree.
pub open spec fn team_mismatch_message(app_team: Seq<char>, extension_team: Seq<char>) -> Seq<
    char,
> {
    "nested signature Team ID mismatch: app="@ + app_team + ", extension="@ + extension_team
}

/// The host application and its extension must be signed by one team.
pub fn check_team_ids(app_team: &str, extension_team: &str) -> (r: Result<(), String>)
    ensures
        app_team@ == extension_team@ ==> r is Ok,
        app_team@ != extension_team@ ==> (r matches Err(m) && m@ == team_mismatch_message(
            app_team@,
            extension_team@,
        )),
{
    if str_eq(app_team, extension_team) {
        return Ok(());
    }
    let mut out: Vec<char> = Vec::new();
    push_str(&mut out, "nested signature Team ID mismatch: app=");
    push_str(&mut out, app_team);
    push_str(&mut out, ", extension=");
    push_str(&mut out, extension_team);
    Err(string_from_chars(out.as_slice()))
}

/// An ASCII hexadecimal digit.
pub open spec fn is_hex_digit(c: char) -> bool {
    ('0' <= c && c <= '9') || ('a' <= c && c <= 'f') || ('A' <= c && c <= 'F')
}

/// The SHA-256 digest `shasum -a 256` printed: its first whitespace-separated
/// word, when that is exactly 64 hexadecimal digits.
pub open spec fn sha256_digest_of(output: Seq<char>) -> Option<Seq<char>> {
    let words = whitespace_tokens(output);
    if words.len() > 0 && words[0].len() == 64 && forall|i: int|
        0 <= i < 64 ==> #[trigger] is_hex_digit(words[0][i]) {
        Some(words[0])
    } else {
        None
    }
}

/// Reads the digest out of `shasum -a 256` output.
pub fn sha256_digest(output: &str) -> (r: Option<String>)
    ensures
        match sha256_digest_of(output@) {
            Some(d) => r matches Some(s) && s@ == d,
            None => r is None,
        },
{
    let chars = str_chars(output);
    let words = split_whitespace_chars(chars.as_slice());
    let ghost views = words@.map_values(|t: Vec<char>| t@);
    assert(chars@ == output@);
    if words.len() == 0 {
        return None;
    }
    let first = &words[0];
    assert(first@ == views[0]);
    if first.len() != 64 {
        return None;
    }
    let mut i: usize = 0;
    while i < 64
        invariant
            i <= 64,
            first@.len() == 64,
            views.len() > 0,
            views[0] == first@,
            views == whitespace_tokens(output@),
            forall|k: int| 0 <= k < i ==> #[trigger] is_hex_digit(first@[k]),
        decreases 64 - i,
    {
        let c = first[i];
        let hex = ('0' <= c && c <= '9') || ('a' <= c && c <= 'f') || ('A' <= c && c <= 'F');
        if !hex {
            assert(!is_hex_digit(views[0][i as int]));
            return None;
        }
        i = i + 1;
    }
    Some(string_from_chars(first.as_slice()))
}

/// Where a piece of release evidence lives.
#[derive(Debug, Clone, Copy, PartialEq, Eq, Structural)]
pub enum EvidenceBase {
    /// Inside the application bundle.
    AppBundle,
    /// Inside the system extension bundle nested in the application.
    ExtensionBundle,
    /// In the release output directory.
    OutputDir,
    /// Beside the output directory, in the parent that holds the
    /// reproducibility comparison (`target` when the output has none).
    OutputParent,
}

/// One file a release must hold before its manifest is written.
#[derive(Debug, Clone, Copy, PartialEq, Eq, Structural)]
pub enum ReleaseEvidence {
    AppInfo,
    ExtensionInfo,
    AppBinary,
    ExtensionBinary,
    Archive,
    Checksum,
    SbomSpdx2,
    SbomSpdx3,
    NotaryResult,
    ReproducibilityDigests,
}

/// The directory a piece of evidence is found under.
pub open spec fn evidence_base(e: ReleaseEvidence) -> EvidenceBase {
    match e {
        ReleaseEvidence::AppInfo => EvidenceBase::AppBundle,
        ReleaseEvidence::ExtensionInfo => EvidenceBase::ExtensionBundle,
        ReleaseEvidence::AppBinary => EvidenceBase::AppBundle,
        ReleaseEvidence::ExtensionBinary => EvidenceBase::ExtensionBundle,
        ReleaseEvidence::ReproducibilityDigests => EvidenceBase::OutputParent,
        _ => EvidenceBase::OutputDir,
    }
}

/// The path of a piece of evidence relative to its base.
pub open spec fn evidence_relative_path(e: ReleaseEvidence) -> Seq<char> {
    match e {
        ReleaseEvidence::AppInfo => "Contents/Info.plist"@,
        ReleaseEvidence::ExtensionInfo => "Contents/Info.plist"@,
        ReleaseEvidence::AppBinary => "Contents/MacOS/CameraMan"@,
        ReleaseEvidence::ExtensionBinary => "Contents/MacOS/CameraManExtension"@,
        ReleaseEvidence::Archive => "CameraMan.zip"@,
        ReleaseEvidence::Checksum => "CameraMan.zip.sha256"@,
        ReleaseEvidence::SbomSpdx2 => "camera-man.spdx.json"@,
        ReleaseEvidence::SbomSpdx3 => "camera-man.spdx3.jsonld"@,
        ReleaseEvidence::NotaryResult => "notary-result.json"@,
        ReleaseEvidence::ReproducibilityDigests => "reproducibility/unsigned-binaries.sha256"@,
    }
}

impl ReleaseEvidence {
    /// The directory this evidence is found under.
    pub fn base(self) -> (b: EvidenceBase)
        ensures
            b == evidence_base(self),
    {
        match self {
            ReleaseEvidence::AppInfo => EvidenceBase::AppBundle,
            ReleaseEvidence::ExtensionInfo => EvidenceBase::ExtensionBundle,
            ReleaseEvidence::AppBinary => EvidenceBase::AppBundle,
            ReleaseEvidence::ExtensionBinary => EvidenceBase::ExtensionBundle,
            ReleaseEvidence::ReproducibilityDigests => EvidenceBase::OutputParent,
            _ => EvidenceBase::OutputDir,
        }
    }

    /// The path of this evidence relative to its base.
    pub fn relative_path(self) -> (p: &'static str)
        ensures
            p@ == evidence_relative_path(self),
    {
        match self {
            ReleaseEvidence::AppInfo => "Contents/Info.plist",
            ReleaseEvidence::ExtensionInfo => "Contents/Info.plist",
            ReleaseEvidence::AppBinary => "Contents/MacOS/CameraMan",
            ReleaseEvidence::ExtensionBinary => "Contents/MacOS/CameraManExtension",
            ReleaseEvidence::Archive => "CameraMan.zip",
            ReleaseEvidence::Checksum => "CameraMan.zip.sha256",
            ReleaseEvidence::SbomSpdx2 => "camera-man.spdx.json",
            ReleaseEvidence::SbomSpdx3 => "camera-man.spdx3.jsonld",
            ReleaseEvidence::NotaryResult => "notary-result.json",
            ReleaseEvidence::ReproducibilityDigests => "reproducibility/unsigned-binaries.sha256",
        }
    }
}

/// The path of the system extension bundle inside the application bundle.
pub open spec fn extension_bundle_path_of(extension_bundle_id: Seq<char>) -> Seq<char> {
    "Contents/Library/SystemExtensions/"@ + extension_bundle_id + ".systemextension"@
}

/// Where the system extension with `extension_bundle_id` sits inside the
/// application bundle.
pub fn extension_bundle_path(extension_bundle_id: &str) -> (p: String)
    ensures
        p@ == extension_bundle_path_of(extension_bundle_id@),
{
    let mut out: Vec<char> = Vec::new();
    push_str(&mut out, "Contents/Library/SystemExtensions/");
    push_str(&mut out, extension_bundle_id);
    push_str(&mut out, ".systemextension");
    string_from_chars(out.as_slice())
}

/// Every file a release must hold, in the order they are checked.
pub open spec fn required_evidence() -> Seq<ReleaseEvidence> {
    seq![
        ReleaseEvidence::AppInfo,
        ReleaseEvidence::ExtensionInfo,
        ReleaseEvidence::AppBinary,
        ReleaseEvidence::ExtensionBinary,
        ReleaseEvidence::Archive,
        ReleaseEvidence::Checksum,
        ReleaseEvidence::SbomSpdx2,
        ReleaseEvidence::SbomSpdx3,
        ReleaseEvidence::NotaryResult,
        ReleaseEvidence::ReproducibilityDigests,
    ]
}

/// The evidence a release must hold before its manifest is written.
pub fn required_release_evidence() -> (v: Vec<ReleaseEvidence>)
    ensures
        v@ == required_evidence(),
{
    let v = vec![
        ReleaseEvidence::AppInfo,
        ReleaseEvidence::ExtensionInfo,
        ReleaseEvidence::AppBinary,
        ReleaseEvidence::ExtensionBinary,
        ReleaseEvidence::Archive,
        ReleaseEvidence::Checksum,
        ReleaseEvidence::SbomSpdx2,
        ReleaseEvidence::SbomSpdx3,
        ReleaseEvidence::NotaryResult,
        ReleaseEvidence::ReproducibilityDigests,
    ];
    assert(v@ =~= required_evidence());
    v
}

/// The manifest's artifacts: each role with the evidence file it digests,
/// in manifest order.
pub open spec fn artifact_roles() -> Seq<(Seq<char>, ReleaseEvidence)> {
    seq![
        ("signed-host-binary"@, ReleaseEvidence::AppBinary),
        ("signed-extension-binary"@, ReleaseEvidence::ExtensionBinary),
        ("notarized-archive"@, ReleaseEvidence::Archive),
        ("archive-checksum"@, ReleaseEvidence::Checksum),
        ("spdx-2.3-sbom"@, ReleaseEvidence::SbomSpdx2),
        ("spdx-3.0.1-sbom"@, ReleaseEvidence::SbomSpdx3),
        ("apple-notary-result"@, ReleaseEvidence::NotaryResult),
        ("unsigned-reproducibility-digests"@, ReleaseEvidence::ReproducibilityDigests),
    ]
}

/// The artifacts a release manifest lists, with the evidence each digests.
pub fn release_artifact_roles() -> (v: Vec<(&'static str, ReleaseEvidence)>)
    ensures
        v@.len() == artifact_roles().len(),
        forall|i: int|
            0 <= i < v@.len() ==> (#[trigger] v@[i]).0@ == artifact_roles()[i].0 && v@[i].1
                == artifact_roles()[i].1,
{
    let v = vec![
        ("signed-host-binary", ReleaseEvidence::AppBinary),
        ("signed-extension-binary", ReleaseEvidence::ExtensionBinary),
        ("notarized-archive", ReleaseEvidence::Archive),
        ("archive-checksum", ReleaseEvidence::Checksum),
        ("spdx-2.3-sbom", ReleaseEvidence::SbomSpdx2),
        ("spdx-3.0.1-sbom", ReleaseEvidence::SbomSpdx3),
        ("apple-notary-result", ReleaseEvidence::NotaryResult),
        ("unsigned-reproducibility-digests", ReleaseEvidence::ReproducibilityDigests),
    ];
    proof {
        reveal_strlit("signed-host-binary");
        reveal_strlit("signed-extension-binary");
        reveal_strlit("notarized-archive");
        reveal_strlit("archive-checksum");
        reveal_strlit("spdx-2.3-sbom");
        reveal_strlit("spdx-3.0.1-sbom");
        reveal_strlit("apple-notary-result");
        reveal_strlit("unsigned-reproducibility-digests");
    }
    v
}

/// The refusal of a release that lacks a piece of evidence.
pub fn missing_evidence_message(path: &str) -> (m: String)
    ensures
        m@ == "release evidence is missing: "@ + path@,
{
    let mut out: Vec<char> = Vec::new();
    push_str(&mut out, "release evidence is missing: ");
    push_str(&mut out, path);
    string_from_chars(out.as_slice())
}

/// An environment value that is set to more than whitespace; otherwise the
/// release tool asks the command instead.
pub fn usable_env_value(value: Option<&str>) -> (r: Option<String>)
    ensures
        match value {
            Some(v) => if trim(v@).len() > 0 {
                r matches Some(s) && s@ == v@
            } else {
                r is None
            },
            None => r is None,
        },
{
    match value {
        Some(v) => {
            let chars = str_chars(v);
            let (start, end) = trim_bounds(chars.as_slice());
            if start < end {
                Some(string_from_chars(chars.as_slice()))
            } else {
                None
            }
        },
        None => None,
    }
}

/// The stages a release passes, each with the evidence it leaves behind, in
/// manifest order.
pub open spec fn release_stage_table() -> Seq<(Seq<char>, Seq<char>)> {
    seq![
        ("checkout"@, "manifest commit and immutable workflow checkout action"@),
        (
            "auditable-build"@,
            "embedded dependency metadata extracted from both final Mach-O binaries"@,
        ),
        ("reproducibility-compare"@, "two clean unsigned builds compared byte-for-byte"@),
        ("nested-signing"@, "strict codesign verification and matching Team IDs"@),
        ("notarization"@, "accepted notary result plus stapler and Gatekeeper checks"@),
        ("packaging"@, "archive digest and final archive artifact scan"@),
        ("publication"@, "GitHub artifact upload and hosted artifact attestations"@),
    ]
}

/// The stages a release manifest records.
pub fn release_stages() -> (v: Vec<(&'static str, &'static str)>)
    ensures
        v@.len() == release_stage_table().len(),
        forall|i: int|
            0 <= i < v@.len() ==> (#[trigger] v@[i]).0@ == release_stage_table()[i].0 && v@[i].1@
                == release_stage_table()[i].1,
{
    let v = vec![
        ("checkout", "manifest commit and immutable workflow checkout action"),
        (
            "auditable-build",
            "embedded dependency metadata extracted from both final Mach-O binaries",
        ),
        ("reproducibility-compare", "two clean unsigned builds compared byte-for-byte"),
        ("nested-signing", "strict codesign verification and matching Team IDs"),
        ("notarization", "accepted notary result plus stapler and Gatekeeper checks"),
        ("packaging", "archive digest and final archive artifact scan"),
        ("publication", "GitHub artifact upload and hosted artifact attestations"),
    ];
    proof {
        reveal_strlit("checkout");
        reveal_strlit("manifest commit and immutable workflow checkout action");
        reveal_strlit("auditable-build");
        reveal_strlit("embedded dependency metadata extracted from both final Mach-O binaries");
        reveal_strlit("reproducibility-compare");
        reveal_strlit("two clean unsigned builds compared byte-for-byte");
        reveal_strlit("nested-signing");
        reveal_strlit("strict codesign verification and matching Team IDs");
        reveal_strlit("notarization");
        reveal_strlit("accepted notary result plus stapler and Gatekeeper checks");
        reveal_strlit("packaging");
        reveal_strlit("archive digest and final archive artifact scan");
        reveal_strlit("publication");
        reveal_strlit("GitHub artifact upload and hosted artifact attestations");
    }
    v
}

/// The first line of a tool's output, or `unknown` when it printed none.
pub open spec fn first_line_of(text: Seq<char>) -> Seq<char> {
    let lines = text_lines(text);
    if lines.len() > 0 {
        lines[0]
    } else {
        "unknown"@
    }
}

/// The first line of `text`, or `unknown`.
pub fn first_line_or_unknown(text: &str) -> (s: String)
    ensures
        s@ == first_line_of(text@),
{
    let lines = lines_of(text);
    let ghost views = lines@.map_values(|l: Vec<char>| l@);
    if lines.len() > 0 {
        assert(views[0] == lines@[0]@);
        string_from_chars(lines[0].as_slice())
    } else {
        let unknown = "unknown";
        proof {
            reveal_strlit("unknown");
        }
        owned(unknown)
    }
}

/// Lines joined with `separator` between each two.
pub open spec fn joined(lines: Seq<Seq<char>>, separator: Seq<char>) -> Seq<char>
    decreases lines.len(),
{
    if lines.len() == 0 {
        Seq::empty()
    } else if lines.len() == 1 {
        lines[0]
    } else {
        joined(lines.drop_last(), separator) + separator + lines.last()
    }
}

/// The lines of `text` on one line, `separator` between each two.
pub fn joined_lines(text: &str, separator: &str) -> (s: String)
    ensures
        s@ == joined(text_lines(text@), separator@),
{
    let lines = lines_of(text);
    let ghost views = lines@.map_values(|l: Vec<char>| l@);
    let mut out: Vec<char> = Vec::new();
    let mut i: usize = 0;
    while i < lines.len()
        invariant
            i <= lines@.len(),
            views == lines@.map_values(|l: Vec<char>| l@),
            out@ == joined(views.take(i as int), separator@),
        decreases lines@.len() - i,
    {
        let ghost before = out@;
        if i > 0 {
            push_str(&mut out, separator);
        }
        let line = &lines[i];
        let mut j: usize = 0;
        let ghost mid = out@;
        while j < line.len()
            invariant
                j <= line@.len(),
                out@ == mid + line@.take(j as int),
            decreases line@.len() - j,
        {
            out.push(line[j]);
            j = j + 1;
            assert(out@ =~= mid + line@.take(j as int));
        }
        proof {
            assert(line@.take(line@.len() as int) =~= line@);
            assert(views.take(i + 1).drop_last() =~= views.take(i as int));
            assert(views.take(i + 1).last() == line@);
            if i == 0 {
                assert(views.take(1).len() == 1);
                assert(out@ =~= views.take(1)[0]);
            }
        }
        i = i + 1;
    }
    assert(views.take(lines@.len() as int) =~= views);
    string_from_chars(out.as_slice())
}

/// The workflow run page of a GitHub Actions run.
pub fn workflow_run_url(repository: &str, run_id: &str) -> (u: String)
    ensures
        u@ == "https://github.com/"@ + repository@ + "/actions/runs/"@ + run_id@,
{
    let mut out: Vec<char> = Vec::new();
    push_str(&mut out, "https://github.com/");
    push_str(&mut out, repository);
    push_str(&mut out, "/actions/runs/");
    push_str(&mut out, run_id);
    string_from_chars(out.as_slice())
}

/// The attestation index of a repository.
pub fn provenance_index_url(repository: &str) -> (u: String)
    ensures
        u@ == "https://github.com/"@ + repository@ + "/attestations"@,
{
    let mut out: Vec<char> = Vec::new();
    push_str(&mut out, "https://github.com/");
    push_str(&mut out, repository);
    push_str(&mut out, "/attestations");
    string_from_chars(out.as_slice())
}

} // verus!
