use camera_man::paths::{
    app_bundle_has_activation_location, app_bundle_path_for_executable,
    bundle_info_path_for_executable, path_file_name,
};
use camera_man::release::value_after_prefix;

#[test]
fn app_bundle_path_is_derived_only_from_a_contents_macos_executable() {
    assert_eq!(
        app_bundle_path_for_executable("/Applications/CameraMan.app/Contents/MacOS/CameraMan"),
        Some(String::from("/Applications/CameraMan.app"))
    );
    assert_eq!(app_bundle_path_for_executable("target/debug/camera-man"), None);
    assert_eq!(
        app_bundle_path_for_executable("/Applications/CameraMan/Contents/MacOS/CameraMan"),
        None
    );
}

#[test]
fn extension_activation_location_requires_an_applications_directory() {
    assert!(app_bundle_has_activation_location("/Applications/CameraMan.app"));
    assert!(!app_bundle_has_activation_location(
        "/System/Applications/CameraMan.app"
    ));
    assert!(!app_bundle_has_activation_location(
        "/Users/example/project/target/CameraMan.app"
    ));
    assert!(!app_bundle_has_activation_location(
        "/tmp/Applications/CameraMan.app"
    ));
}

#[test]
fn derives_info_path_only_for_bundle_executables() {
    assert_eq!(
        bundle_info_path_for_executable("/Applications/CameraMan.app/Contents/MacOS/CameraMan"),
        Some(String::from("/Applications/CameraMan.app/Contents/Info.plist"))
    );
    assert_eq!(bundle_info_path_for_executable("target/debug/camera-man"), None);
}

#[test]
fn parses_single_line_metadata_without_accepting_empty_values() {
    assert_eq!(
        value_after_prefix(
            "Executable=/tmp/app\nTeamIdentifier=TEAM123\n",
            "TeamIdentifier="
        ),
        Some(String::from("TEAM123"))
    );
    assert_eq!(value_after_prefix("host: \n", "host: "), None);
}

#[test]
fn metadata_lookup_trims_lines_and_stops_at_the_first_match() {
    assert_eq!(
        value_after_prefix("  host: aarch64-apple-darwin \r\nhost: other\n", "host: "),
        Some(String::from("aarch64-apple-darwin"))
    );
    assert_eq!(value_after_prefix("a=1\nb=2", "c="), None);
    assert_eq!(value_after_prefix("", "c="), None);
}

#[test]
fn bundle_paths_ignore_repeated_separators_and_relative_roots() {
    assert_eq!(
        app_bundle_path_for_executable("build//Tool.app/Contents/MacOS/tool"),
        Some(String::from("build/Tool.app"))
    );
    assert_eq!(
        app_bundle_path_for_executable("/x/.app/Contents/MacOS/tool"),
        None
    );
    assert_eq!(
        bundle_info_path_for_executable("Contents/MacOS/tool"),
        Some(String::from("Contents/Info.plist"))
    );
    assert!(app_bundle_has_activation_location("/Applications"));
    assert!(!app_bundle_has_activation_location("Applications/CameraMan.app"));
}

#[test]
fn file_name_is_the_last_named_component() {
    assert_eq!(path_file_name("/a/b.txt"), Some("b.txt".chars().collect()));
    assert_eq!(path_file_name("/a/b/"), Some("b".chars().collect()));
    assert_eq!(path_file_name("/"), None);
    assert_eq!(path_file_name("a/.."), None);
}
