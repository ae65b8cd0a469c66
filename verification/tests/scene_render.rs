use camera_man::config::VideoFormat;
use camera_man::frame::{CapturedFrame, Frame, FrameMetadata};
use camera_man::scene_render::{RenderFingerprint, SceneChange, SceneEditCommand};
use camera_man::scene_sources::SourceDescriptor;

#[derive(Debug, Clone, Copy, Default, PartialEq, Eq)]
struct SourceTransform {
    mirror_horizontal: bool,
}

#[derive(Debug, Clone, Copy, PartialEq, Eq)]
enum CompositionLayout {
    Grid,
}

#[derive(Debug, Clone, Copy, PartialEq, Eq)]
enum ScalingFilter {
    Nearest,
}

type Command = SceneEditCommand<SourceTransform, CompositionLayout, ScalingFilter, u32, bool>;

#[test]
fn render_fingerprint_deduplicates_only_the_same_capture_and_configuration() {
    let format = VideoFormat::hd_1080p_bgra();
    let frame = Frame::solid_bgra(2, 2, [1, 2, 3, 255], None, None).unwrap();
    let first = CapturedFrame::new(frame.clone(), FrameMetadata::new("camera", 7));
    let next = CapturedFrame::new(frame, FrameMetadata::new("camera", 8));
    let fingerprint = |frame: CapturedFrame, publish_virtual| {
        RenderFingerprint::new(
            &[Some(frame)],
            CompositionLayout::Grid,
            format,
            ScalingFilter::Nearest,
            vec![SourceTransform::default()],
            publish_virtual,
        )
    };

    let baseline = fingerprint(first.clone(), true);
    assert!(baseline == fingerprint(first.clone(), true));
    assert!(baseline != fingerprint(next, true));
    assert!(baseline != fingerprint(first, false));
}

#[test]
fn every_typed_scene_command_declares_its_invalidation() {
    assert_eq!(
        Command::MoveSource { from: 0, to: 1 }.invalidation(),
        SceneChange::SourceOrder
    );
    assert_eq!(
        Command::SetTransform {
            source_id: String::from("desk"),
            transform: SourceTransform::default(),
        }
        .invalidation(),
        SceneChange::Transform
    );
    assert_eq!(
        Command::SetLayout(CompositionLayout::Grid).invalidation(),
        SceneChange::Layout
    );
}

#[test]
fn selection_rate_and_policy_edits_name_their_own_changes() {
    assert_eq!(
        Command::SetSourceSelected {
            source: SourceDescriptor::camera("built-in"),
            selected: true,
        }
        .invalidation(),
        SceneChange::SourceTopology
    );
    assert_eq!(Command::SetFrameRate(30).invalidation(), SceneChange::FrameRate);
    assert_eq!(
        Command::SetMissingSourcePolicy(true).invalidation(),
        SceneChange::MissingSourcePolicy
    );
    assert_eq!(
        Command::SetScalingFilter(ScalingFilter::Nearest).invalidation(),
        SceneChange::Scaling
    );
}

#[test]
fn empty_cells_and_frames_fingerprint_differently() {
    let format = VideoFormat::hd_1080p_bgra();
    let frame = Frame::solid_bgra(2, 2, [1, 2, 3, 255], None, None).unwrap();
    let captured = CapturedFrame::new(frame, FrameMetadata::new("camera", 1));
    let with_frame = RenderFingerprint::new(
        &[Some(captured)],
        CompositionLayout::Grid,
        format,
        ScalingFilter::Nearest,
        Vec::<SourceTransform>::new(),
        true,
    );
    let empty = RenderFingerprint::new(
        &[None],
        CompositionLayout::Grid,
        format,
        ScalingFilter::Nearest,
        Vec::<SourceTransform>::new(),
        true,
    );
    assert!(with_frame != empty);
    assert_eq!(with_frame.frames[0].as_ref().unwrap().sequence, 1);
    assert_eq!(with_frame.frames[0].as_ref().unwrap().source_id, "camera");
}
