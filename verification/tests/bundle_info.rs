use camera_man::bundle_info::{
    application_group_from_info, extension_activation_metadata_from_value,
    optional_string_entry, InfoEntry, InfoLookupError, InfoValue,
};

fn string(value: &str) -> InfoValue {
    InfoValue::String(value.to_owned())
}

fn entry(key: &str, value: InfoValue) -> InfoEntry {
    InfoEntry {
        key: key.to_owned(),
        value,
    }
}

fn dictionary(entries: Vec<InfoEntry>) -> InfoValue {
    InfoValue::Dictionary(entries)
}

#[test]
fn extracts_only_a_nonempty_string_group() {
    let valid = dictionary(vec![entry("CameraManAppGroup", string("TEAM.group"))]);
    let empty = dictionary(vec![entry("CameraManAppGroup", string(""))]);

    assert_eq!(
        application_group_from_info(&valid).as_deref(),
        Some("TEAM.group")
    );
    assert_eq!(application_group_from_info(&empty), None);
}

#[test]
fn activation_metadata_requires_mach_service_and_usage_description() {
    let valid = dictionary(vec![
        entry(
            "CMIOExtension",
            dictionary(vec![entry(
                "CMIOExtensionMachServiceName",
                string("TEAM.group.cmio"),
            )]),
        ),
        entry("NSSystemExtensionUsageDescription", string("Virtual camera")),
        entry("CameraManAppGroup", string("TEAM.group")),
    ]);
    let missing_usage = dictionary(vec![entry(
        "CMIOExtension",
        dictionary(vec![entry(
            "CMIOExtensionMachServiceName",
            string("TEAM.group.cmio"),
        )]),
    )]);

    let metadata = extension_activation_metadata_from_value(&valid).unwrap();
    assert_eq!(metadata.mach_service_name, "TEAM.group.cmio");
    assert_eq!(metadata.usage_description, "Virtual camera");
    assert_eq!(metadata.application_group.as_deref(), Some("TEAM.group"));
    assert!(extension_activation_metadata_from_value(&missing_usage).is_err());
}

#[test]
fn each_missing_activation_field_has_its_own_message() {
    assert_eq!(
        extension_activation_metadata_from_value(&InfoValue::Other).unwrap_err(),
        "Unavailable: extension Info.plist is not a dictionary"
    );
    let empty_service = dictionary(vec![
        entry(
            "CMIOExtension",
            dictionary(vec![entry("CMIOExtensionMachServiceName", string(""))]),
        ),
        entry("NSSystemExtensionUsageDescription", string("Virtual camera")),
    ]);
    assert_eq!(
        extension_activation_metadata_from_value(&empty_service).unwrap_err(),
        "Unavailable: extension Mach service is missing"
    );
    let no_usage = dictionary(vec![entry(
        "CMIOExtension",
        dictionary(vec![entry("CMIOExtensionMachServiceName", string("svc"))]),
    )]);
    assert_eq!(
        extension_activation_metadata_from_value(&no_usage).unwrap_err(),
        "Unavailable: extension usage description is missing"
    );
    let no_group = dictionary(vec![
        entry(
            "CMIOExtension",
            dictionary(vec![entry("CMIOExtensionMachServiceName", string("svc"))]),
        ),
        entry("NSSystemExtensionUsageDescription", string("")),
    ]);
    let metadata = extension_activation_metadata_from_value(&no_group).unwrap();
    assert_eq!(metadata.usage_description, "");
    assert_eq!(metadata.application_group, None);
}

#[test]
fn optional_string_entries_distinguish_absent_from_mistyped() {
    let info = dictionary(vec![
        entry("CFBundleIdentifier", string("com.example")),
        entry("LSMinimumSystemVersion", InfoValue::Other),
    ]);
    assert_eq!(
        optional_string_entry(&info, "CFBundleIdentifier"),
        Ok(Some(String::from("com.example")))
    );
    assert_eq!(optional_string_entry(&info, "CameraManAppGroup"), Ok(None));
    assert_eq!(
        optional_string_entry(&info, "LSMinimumSystemVersion"),
        Err(InfoLookupError::NotString)
    );
    assert_eq!(
        optional_string_entry(&string("x"), "CFBundleIdentifier"),
        Err(InfoLookupError::NotDictionary)
    );
}
