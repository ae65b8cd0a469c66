use camera_man::camera::CameraDevice;
use camera_man::camera_reads::{judge_camera_round, plan_retry, reconcile_captures, CameraRead};
use camera_man::error::{CameraManError, CaptureErrorKind};
use camera_man::scene_sources::SourceDescriptor;

fn read(name: &str, outcome: Result<Option<u32>, CameraManError>, streak: u32) -> CameraRead<u32> {
    CameraRead {
        name: String::from(name),
        source: Some((outcome, streak)),
    }
}

fn unplugged() -> CameraManError {
    CameraManError::capture("read camera: device removed")
}

#[test]
fn an_all_camera_scene_without_frames_fails_as_a_whole() {
    let scene = [SourceDescriptor::camera("0"), SourceDescriptor::camera("1")];
    let round = judge_camera_round(
        vec![read("Desk", Err(unplugged()), 0), read("Room", Ok(None), 0)],
        &scene,
    );
    assert_eq!(round.frames, vec![None, None]);
    assert_eq!(round.streaks, vec![Some(1), Some(0)]);
    let error = round.scene_error.expect("the scene cannot render");
    assert!(error.starts_with("Read camera Desk failed."));
    assert!(round.new_failures.is_empty());
}

#[test]
fn a_mixed_scene_keeps_rendering_and_announces_each_new_failure_once() {
    let scene = [SourceDescriptor::camera("0"), SourceDescriptor::synthetic("desk")];
    let round = judge_camera_round(
        vec![read("Desk", Err(unplugged()), 0), read("Room", Err(unplugged()), 4)],
        &scene,
    );
    assert!(round.scene_error.is_none());
    assert_eq!(round.new_failures.len(), 1);
    assert!(round.new_failures[0].starts_with("Read camera Desk failed."));
    assert_eq!(round.streaks, vec![Some(1), Some(5)]);
}

#[test]
fn a_frame_after_failures_counts_as_a_reconnect() {
    let scene = [SourceDescriptor::camera("0"), SourceDescriptor::camera("1")];
    let round = judge_camera_round(
        vec![
            read("Desk", Ok(Some(7)), 3),
            read("Room", Ok(Some(8)), 0),
            CameraRead { name: String::from("Wide"), source: None },
        ],
        &scene,
    );
    assert_eq!(round.frames, vec![Some(7), Some(8), None]);
    assert_eq!(round.frames_received, 2);
    assert_eq!(round.recovered, 1);
    assert_eq!(round.streaks, vec![Some(0), Some(0), None]);
    assert!(round.scene_error.is_none());
}

#[test]
fn a_timed_out_read_marks_the_camera_not_responding() {
    let scene = [SourceDescriptor::camera("0")];
    let timeout = CameraManError::capture_with_kind(
        CaptureErrorKind::Timeout,
        "opening camera uid:desk did not return after 20000ms",
    );
    let round = judge_camera_round(vec![read("Desk", Err(timeout), u32::MAX)], &scene);
    assert!(round.camera_not_responding);
    assert_eq!(round.streaks, vec![Some(u32::MAX)]);
    assert!(round.scene_error.is_some());
}

fn ids(list: &[&str]) -> Vec<String> {
    list.iter().map(|id| String::from(*id)).collect()
}

#[test]
fn unselected_captures_are_released_and_new_cameras_started_only_when_allowed() {
    let devices = [CameraDevice::with_aliases(
        "uid:stable-camera",
        "Camera",
        vec![String::from("0")],
    )];
    let running = ids(&["0", "uid:old"]);
    let selected = ids(&["uid:stable-camera", "uid:new", "uid:new"]);

    let plan = reconcile_captures(&running, &selected, &devices, true);
    assert_eq!(plan.keep, vec![true, false]);
    assert_eq!(plan.start, ids(&["uid:new"]));

    let quiet = reconcile_captures(&running, &selected, &devices, false);
    assert_eq!(quiet.keep, vec![true, false]);
    assert!(quiet.start.is_empty());
}

#[test]
fn a_retry_reopens_through_the_running_locator_of_the_same_camera() {
    let devices = [CameraDevice::with_aliases(
        "uid:stable-camera",
        "Camera",
        vec![String::from("0")],
    )];
    let running = ids(&["uid:other", "0"]);
    let scene = [SourceDescriptor::camera("uid:stable-camera")];

    let plan = plan_retry(&running, "uid:stable-camera", &devices, true, &scene);
    assert_eq!(plan.previous, Some(1));
    assert_eq!(plan.release, vec![false, true]);
    assert_eq!(plan.reopen_id, "0");
    assert!(plan.restart);

    let stopped = plan_retry(&running, "uid:missing", &devices, false, &scene);
    assert_eq!(stopped.previous, None);
    assert_eq!(stopped.reopen_id, "uid:missing");
    assert!(!stopped.restart);
}
