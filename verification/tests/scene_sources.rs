use camera_man::camera::{camera_locators_match, CameraDevice};
use camera_man::scene_sources::{
    camera_failure_is_scene_wide, remap_camera_aliases, resolve_ordered_sources,
    SourceDescriptor, SourceKind,
};

#[derive(Debug, Clone, Copy, Default, PartialEq)]
struct SourceTransform {
    mirror_horizontal: bool,
    rotation_quarter_turns: u8,
}

fn lookup<'a, T>(entries: &'a [(String, T)], key: &str) -> &'a T {
    &entries
        .iter()
        .find(|(entry_key, _)| entry_key == key)
        .expect("key present")
        .1
}

#[test]
fn heterogeneous_sources_keep_scene_order_and_missing_cells() {
    let descriptors = [
        SourceDescriptor::camera("built-in"),
        SourceDescriptor::synthetic("video-like"),
        SourceDescriptor::camera("missing"),
    ];
    let cameras = vec![(String::from("built-in"), Some("camera"))];

    assert_eq!(
        resolve_ordered_sources(&descriptors, cameras, |locator| {
            Ok::<_, ()>((locator == "video-like").then_some("video"))
        })
        .unwrap(),
        [Some("camera"), Some("video"), None]
    );
}

#[test]
fn camera_failure_is_scene_wide_only_for_an_all_camera_scene() {
    assert!(camera_failure_is_scene_wide(
        &[SourceDescriptor::camera("built-in")],
        0
    ));
    assert!(!camera_failure_is_scene_wide(
        &[
            SourceDescriptor::camera("built-in"),
            SourceDescriptor::synthetic("video-like"),
        ],
        0
    ));
    assert!(!camera_failure_is_scene_wide(
        &[SourceDescriptor::camera("built-in")],
        1
    ));
}

#[test]
fn discovery_migrates_legacy_camera_ids_and_transform_keys() {
    let mut sources = vec![
        SourceDescriptor::camera("0"),
        SourceDescriptor::synthetic("desk"),
    ];
    let transform = SourceTransform {
        mirror_horizontal: true,
        ..SourceTransform::default()
    };
    let mut transforms = vec![(String::from("camera:0"), transform)];
    let devices = [CameraDevice::with_aliases(
        "uid:stable-camera",
        "Camera",
        vec![String::from("0")],
    )];

    let remapped = remap_camera_aliases(&mut sources, &mut transforms, &devices);

    assert_eq!(sources[0], SourceDescriptor::camera("uid:stable-camera"));
    assert_eq!(lookup(&remapped, "camera:0"), "camera:uid:stable-camera");
    assert!(lookup(&transforms, "camera:uid:stable-camera").mirror_horizontal);
}

#[test]
fn legacy_and_stable_camera_locators_share_one_runtime_identity() {
    let devices = [CameraDevice::with_aliases(
        "uid:stable-camera",
        "Camera",
        vec![String::from("0")],
    )];

    assert!(camera_locators_match("0", "uid:stable-camera", &devices));
    assert!(!camera_locators_match("1", "uid:stable-camera", &devices));
}

#[test]
fn a_camera_named_twice_fills_only_its_first_cell() {
    let descriptors = [
        SourceDescriptor::camera("a"),
        SourceDescriptor::camera("a"),
        SourceDescriptor::camera("b"),
    ];
    let cameras = vec![
        (String::from("a"), Some(1)),
        (String::from("a"), Some(2)),
        (String::from("b"), None),
    ];
    let cells = resolve_ordered_sources(&descriptors, cameras, |_| Ok::<_, ()>(Some(9))).unwrap();
    assert_eq!(cells, [Some(1), None, None]);
}

#[test]
fn a_synthetic_failure_ends_the_resolution() {
    let descriptors = [
        SourceDescriptor::synthetic("ok"),
        SourceDescriptor::synthetic("broken"),
    ];
    let result = resolve_ordered_sources(&descriptors, Vec::<(String, Option<u8>)>::new(), |locator| {
        if locator == "broken" {
            Err("broken source")
        } else {
            Ok(Some(1))
        }
    });
    assert_eq!(result, Err("broken source"));
}

#[test]
fn migration_drops_duplicates_and_keeps_existing_transforms() {
    let mut sources = vec![
        SourceDescriptor::camera("0"),
        SourceDescriptor::camera("uid:cam"),
        SourceDescriptor::synthetic("0"),
    ];
    let kept = SourceTransform {
        rotation_quarter_turns: 1,
        ..SourceTransform::default()
    };
    let legacy = SourceTransform {
        mirror_horizontal: true,
        ..SourceTransform::default()
    };
    let mut transforms = vec![
        (String::from("camera:uid:cam"), kept),
        (String::from("camera:0"), legacy),
    ];
    let devices = [CameraDevice::with_aliases(
        "uid:cam",
        "Camera",
        vec![String::from("0")],
    )];

    let remapped = remap_camera_aliases(&mut sources, &mut transforms, &devices);

    assert_eq!(
        sources,
        vec![
            SourceDescriptor::camera("uid:cam"),
            SourceDescriptor::synthetic("0")
        ]
    );
    assert_eq!(remapped, vec![(String::from("camera:0"), String::from("camera:uid:cam"))]);
    assert_eq!(transforms.len(), 1);
    assert_eq!(*lookup(&transforms, "camera:uid:cam"), kept);
    assert_eq!(sources[1].kind, SourceKind::Synthetic);
    assert_eq!(sources[0].stable_key(), "camera:uid:cam");
}
