use camera_man::config::VideoFormat;
use camera_man::frame::PixelFormat;
use camera_man::source_health::{
    real_source_health, waiting_overlay_text, RealSourceRuntime, RowHealth, UiText,
};

const TEST_FORMAT: VideoFormat = VideoFormat {
    width: 1280,
    height: 720,
    fps: 30,
    pixel_format: PixelFormat::Bgra8,
};

fn streaming_runtime(failure_streak: u32, frame_gap_exceeded: bool) -> RealSourceRuntime {
    RealSourceRuntime {
        failure_streak,
        negotiated_format: Some(TEST_FORMAT),
        frame_gap_exceeded,
    }
}

#[test]
fn a_not_responding_camera_overrides_the_warm_up_overlay() {
    assert_eq!(
        waiting_overlay_text(true, false),
        (UiText::CameraNotResponding, Some(UiText::RetryCamera))
    );
    assert_eq!(
        waiting_overlay_text(true, true),
        (UiText::CameraNotResponding, Some(UiText::RetryCamera))
    );
    assert_eq!(
        waiting_overlay_text(false, true),
        (UiText::CameraDisconnected, Some(UiText::ReconnectCamera))
    );
    assert_eq!(
        waiting_overlay_text(false, false),
        (UiText::WaitingForCamera, None)
    );
}

#[test]
fn a_stalled_read_reports_stale_without_claiming_a_reconnect_is_running() {
    let health = real_source_health(true, true, Some(streaming_runtime(0, true)));
    assert_eq!(health, RowHealth::Stalled);
    assert!(!matches!(health, RowHealth::Retrying(_)));
}

#[test]
fn a_stalled_read_outranks_the_failure_streak_in_the_source_row() {
    assert_eq!(
        real_source_health(true, true, Some(streaming_runtime(3, true))),
        RowHealth::Stalled
    );
}

#[test]
fn a_running_camera_with_current_frames_still_reports_connected() {
    assert_eq!(
        real_source_health(true, true, Some(streaming_runtime(0, false))),
        RowHealth::Connected
    );
}

#[test]
fn unselected_or_stopped_rows_are_off_and_failures_count_retries() {
    assert_eq!(
        real_source_health(false, true, Some(streaming_runtime(0, false))),
        RowHealth::Off
    );
    assert_eq!(real_source_health(true, false, None), RowHealth::Off);
    assert_eq!(real_source_health(true, true, None), RowHealth::Waiting);
    assert_eq!(
        real_source_health(true, true, Some(streaming_runtime(2, false))),
        RowHealth::Retrying(2)
    );
    assert_eq!(
        real_source_health(
            true,
            true,
            Some(RealSourceRuntime {
                failure_streak: 0,
                negotiated_format: None,
                frame_gap_exceeded: false,
            })
        ),
        RowHealth::Waiting
    );
}
