use camera_man::release::{
    check_team_ids, extension_bundle_path, first_line_or_unknown, joined_lines,
    missing_evidence_message, provenance_index_url, release_artifact_roles, release_stages,
    required_release_evidence, sha256_digest, team_identifier, usable_env_value, workflow_run_url,
    EvidenceBase, ReleaseEvidence,
};

#[test]
fn team_identifier_ignores_unset_signatures() {
    assert_eq!(
        team_identifier("Executable=/tmp/app\nTeamIdentifier=TEAM123\n"),
        Some(String::from("TEAM123"))
    );
    assert_eq!(team_identifier("TeamIdentifier=not set\n"), None);
    assert_eq!(team_identifier("Identifier=com.example\n"), None);
}

#[test]
fn nested_signatures_must_share_a_team() {
    assert_eq!(check_team_ids("TEAM123", "TEAM123"), Ok(()));
    assert_eq!(
        check_team_ids("TEAM123", "OTHER99"),
        Err(String::from(
            "nested signature Team ID mismatch: app=TEAM123, extension=OTHER99"
        ))
    );
}

#[test]
fn digest_is_the_first_word_of_sixty_four_hex_digits() {
    let digest = "0123456789abcdefABCDEF0123456789abcdef0123456789abcdef0123456789";
    assert_eq!(
        sha256_digest(&format!("{digest}  CameraMan.zip\n")),
        Some(String::from(digest))
    );
    assert_eq!(sha256_digest(&format!("{}  file\n", &digest[..63])), None);
    let not_hex = format!("{}g", &digest[..63]);
    assert_eq!(sha256_digest(&format!("{not_hex}  file\n")), None);
    assert_eq!(sha256_digest("   \n"), None);
}

#[test]
fn release_evidence_covers_both_bundles_and_the_output() {
    let evidence = required_release_evidence();
    assert_eq!(evidence.len(), 10);
    assert_eq!(evidence[0], ReleaseEvidence::AppInfo);
    assert_eq!(evidence[9], ReleaseEvidence::ReproducibilityDigests);
    assert_eq!(ReleaseEvidence::ExtensionBinary.base(), EvidenceBase::ExtensionBundle);
    assert_eq!(
        ReleaseEvidence::ExtensionBinary.relative_path(),
        "Contents/MacOS/CameraManExtension"
    );
    assert_eq!(ReleaseEvidence::ReproducibilityDigests.base(), EvidenceBase::OutputParent);
    assert_eq!(
        extension_bundle_path("com.example.camera"),
        "Contents/Library/SystemExtensions/com.example.camera.systemextension"
    );
    let roles = release_artifact_roles();
    assert_eq!(roles.len(), 8);
    assert_eq!(roles[0], ("signed-host-binary", ReleaseEvidence::AppBinary));
    assert_eq!(
        missing_evidence_message("out/CameraMan.zip"),
        "release evidence is missing: out/CameraMan.zip"
    );
}

#[test]
fn blank_environment_values_defer_to_the_command() {
    assert_eq!(usable_env_value(Some("abc123")), Some(String::from("abc123")));
    assert_eq!(usable_env_value(Some("  \t")), None);
    assert_eq!(usable_env_value(None), None);
}

#[test]
fn tool_output_is_summarized_line_by_line() {
    assert_eq!(
        first_line_or_unknown("rustc 1.80.0\nhost: aarch64-apple-darwin\n"),
        "rustc 1.80.0"
    );
    assert_eq!(first_line_or_unknown(""), "unknown");
    assert_eq!(joined_lines("Xcode 16.0\nBuild version 16A242d\n", "; "), "Xcode 16.0; Build version 16A242d");
    assert_eq!(joined_lines("", "; "), "");
}

#[test]
fn release_links_point_at_the_repository() {
    assert_eq!(
        workflow_run_url("owner/repo", "42"),
        "https://github.com/owner/repo/actions/runs/42"
    );
    assert_eq!(provenance_index_url("owner/repo"), "https://github.com/owner/repo/attestations");
    let stages = release_stages();
    assert_eq!(stages.len(), 7);
    assert_eq!(stages[3].0, "nested-signing");
}
