use camera_man::app_group::{shared_frame_file_path, shared_frame_path_in};
use camera_man::error::CameraManError;
use camera_man::paths::push_component;

#[test]
fn without_an_app_group_there_is_no_shared_frame_file() {
    let result = shared_frame_file_path(None, |_group: &String| -> Result<String, CameraManError> {
        panic!("the container is not looked up without a group")
    });
    assert_eq!(result, Ok(None));
}

#[test]
fn the_shared_frame_file_lives_in_the_group_container() {
    let result = shared_frame_file_path(Some(String::from("TEAM.group")), |group: &String| {
        Ok(format!("/Users/example/Library/Group Containers/{group}"))
    });
    assert_eq!(
        result,
        Ok(Some(String::from(
            "/Users/example/Library/Group Containers/TEAM.group/CameraMan/frames-v5.mmap"
        )))
    );
}

#[test]
fn a_missing_container_is_reported_unchanged() {
    let result = shared_frame_file_path(Some(String::from("TEAM.group")), |_group: &String| {
        Err(CameraManError::VirtualCameraUnavailable(
            "the signed App Group container is unavailable",
        ))
    });
    assert_eq!(
        result,
        Err(CameraManError::VirtualCameraUnavailable(
            "the signed App Group container is unavailable"
        ))
    );
}

#[test]
fn components_join_like_path_buf_push() {
    assert_eq!(push_component("/tmp", "a"), "/tmp/a");
    assert_eq!(push_component("/tmp/", "a"), "/tmp/a");
    assert_eq!(push_component("", "a"), "a");
    assert_eq!(push_component("/tmp", "/etc"), "/etc");
    assert_eq!(shared_frame_path_in("/c/"), "/c/CameraMan/frames-v5.mmap");
}
