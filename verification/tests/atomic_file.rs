use camera_man::atomic_file::{
    replaced_file_name, staging_directory, temporary_file_name, RESERVATION_ATTEMPTS,
};

#[test]
fn replacements_are_staged_beside_the_target() {
    assert_eq!(staging_directory("/tmp/state/state.json"), "/tmp/state");
    assert_eq!(staging_directory("state.json"), ".");
    assert_eq!(staging_directory("/state.json"), "/");
    assert_eq!(staging_directory("dir/state.json"), "dir");
}

#[test]
fn temporary_names_are_hidden_and_unique_per_attempt() {
    assert_eq!(
        temporary_file_name("state.json", 4242, 0),
        ".state.json.4242.0.tmp"
    );
    assert_ne!(
        temporary_file_name("state.json", 4242, 1),
        temporary_file_name("state.json", 4242, 2)
    );
    assert_eq!(RESERVATION_ATTEMPTS, 32);
}

#[test]
fn only_paths_naming_a_file_can_be_replaced() {
    assert_eq!(replaced_file_name("/tmp/state.json"), Some(String::from("state.json")));
    assert_eq!(replaced_file_name("/"), None);
    assert_eq!(replaced_file_name("/tmp/.."), None);
}
