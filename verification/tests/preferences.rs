use camera_man::preferences::{
    AppPreferences,
    fixed_fps_warning, legacy_schema_version, migrate_schema_version, resolve_target_fps, sanitized_export_path, sanitized_fps_mode,
    sanitized_ids, FpsMode, UiLocale, CURRENT_SCHEMA_VERSION, DEFAULT_EXPORT_PATH,
};

#[test]
fn duplicate_and_empty_ids_are_dropped() {
    let ids = vec![
        String::from("camera-1"),
        String::from("camera-1"),
        String::new(),
    ];
    assert_eq!(sanitized_ids(ids), vec![String::from("camera-1")]);
}

#[test]
fn id_lists_are_capped_and_long_ids_dropped() {
    let mut ids: Vec<String> = (0..70).map(|i| format!("id-{i}")).collect();
    ids.insert(0, "x".repeat(257));
    ids.insert(1, "y".repeat(256));
    let kept = sanitized_ids(ids);
    assert_eq!(kept.len(), 64);
    assert_eq!(kept[0], "y".repeat(256));
    assert_eq!(kept[1], "id-0");
    assert_eq!(kept[63], "id-62");
    assert_eq!(sanitized_ids(vec!["é".repeat(129)]), Vec::<String>::new());
}

#[test]
fn unsupported_fixed_fps_falls_back_to_auto() {
    assert_eq!(sanitized_fps_mode(FpsMode::Fixed(0)), FpsMode::Auto);
    assert_eq!(sanitized_fps_mode(FpsMode::Fixed(45)), FpsMode::Auto);
    assert_eq!(sanitized_fps_mode(FpsMode::Fixed(24)), FpsMode::Fixed(24));
    assert_eq!(sanitized_fps_mode(FpsMode::Fixed(60)), FpsMode::Fixed(60));
    assert_eq!(sanitized_fps_mode(FpsMode::Auto), FpsMode::Auto);
}

#[test]
fn legacy_schemas_migrate_to_the_current_one() {
    assert_eq!(legacy_schema_version(), 1);
    for version in 0..=CURRENT_SCHEMA_VERSION {
        assert_eq!(migrate_schema_version(version), Some(CURRENT_SCHEMA_VERSION));
    }
    assert_eq!(migrate_schema_version(CURRENT_SCHEMA_VERSION + 1), None);
}

#[test]
fn an_empty_export_path_is_repaired() {
    assert_eq!(sanitized_export_path(""), DEFAULT_EXPORT_PATH);
    assert_eq!(sanitized_export_path("target/custom.ppm"), "target/custom.ppm");
    assert_eq!(UiLocale::default(), UiLocale::English);
}

#[test]
fn automatic_rate_follows_the_fastest_camera() {
    assert_eq!(resolve_target_fps(FpsMode::Auto, &[]), 30);
    assert_eq!(resolve_target_fps(FpsMode::Auto, &[24, 60, 30]), 60);
    assert_eq!(resolve_target_fps(FpsMode::Auto, &[120]), 60);
    assert_eq!(resolve_target_fps(FpsMode::Fixed(24), &[60]), 24);
    assert_eq!(resolve_target_fps(FpsMode::Fixed(0), &[]), 1);
}

#[test]
fn a_fixed_rate_above_the_slowest_camera_warns() {
    assert_eq!(
        fixed_fps_warning(FpsMode::Fixed(60), &[30, 60]),
        Some(String::from(
            "Target is above the slowest camera (30 fps); frames may repeat"
        ))
    );
    assert_eq!(fixed_fps_warning(FpsMode::Fixed(30), &[30, 60]), None);
    assert_eq!(fixed_fps_warning(FpsMode::Fixed(60), &[]), None);
    assert_eq!(fixed_fps_warning(FpsMode::Auto, &[15]), None);
}

#[test]
fn corrupted_preferences_are_bounded_and_repaired() {
    let preferences = AppPreferences {
        selected_real_ids: vec![
            String::from("camera-1"),
            String::from("camera-1"),
            String::new(),
        ],
        fps_mode: FpsMode::Fixed(0),
        export_path: String::new(),
        ..AppPreferences::new()
    }
    .sanitized();

    assert_eq!(preferences.selected_real_ids, ["camera-1"]);
    assert_eq!(preferences.fps_mode, FpsMode::Auto);
    assert_eq!(preferences.export_path, DEFAULT_EXPORT_PATH);
}

#[test]
fn unsupported_fixed_fps_does_not_leave_the_segmented_control_unselected() {
    let preferences = AppPreferences {
        fps_mode: FpsMode::Fixed(45),
        ..AppPreferences::new()
    }
    .sanitized();

    assert_eq!(preferences.fps_mode, FpsMode::Auto);
}

#[test]
fn legacy_preferences_migrate_sequentially() {
    let legacy = AppPreferences {
        schema_version: legacy_schema_version(),
        selected_synthetic_ids: vec![String::from("desk")],
        export_path: String::from("target/legacy.ppm"),
        ..AppPreferences::new()
    };
    let migrated = legacy.migrated();
    assert_eq!(migrated.schema_version, CURRENT_SCHEMA_VERSION);
    assert_eq!(migrated.export_path, "target/legacy.ppm");
}

#[test]
fn preferences_from_a_newer_schema_are_replaced_by_defaults() {
    let future = AppPreferences {
        schema_version: CURRENT_SCHEMA_VERSION + 1,
        high_contrast: true,
        ..AppPreferences::new()
    };
    assert_eq!(future.migrated(), AppPreferences::new());
    assert_eq!(
        AppPreferences::new().selected_synthetic_ids,
        ["desk", "side", "wide"]
    );
}
