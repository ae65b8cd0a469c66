//! What a scene edit invalidates, and the fingerprint that lets the app skip
//! a render whose inputs did not change. The scene's own value types
//! (transforms, layouts, scaling filters, frame-rate modes, missing-source
//! policies) are parameters here: these decisions do not look inside them.
use vstd::prelude::*;

use crate::config::VideoFormat;
use crate::frame::CapturedFrame;
use crate::scene_sources::SourceDescriptor;
use crate::text::owned;

verus! {

/// The part of the scene an edit changed.
#[derive(Debug, Clone, Copy, PartialEq, Eq, Structural)]
pub enum SceneChange {
    SourceTopology,
    SourceOrder,
    Transform,
    Layout,
    Scaling,
    FrameRate,
    MissingSourcePolicy,
}

/// One typed edit of the current scene.
#[derive(Debug, Clone, PartialEq, Eq)]
pub enum SceneEditCommand<Transform, Layout, Filter, Rate, Policy> {
    SetSourceSelected { source: SourceDescriptor, selected: bool },
    MoveSource { from: usize, to: usize },
    SetTransform { source_id: String, transform: Transform },
    SetLayout(Layout),
    SetScalingFilter(Filter),
    SetFrameRate(Rate),
    SetMissingSourcePolicy(Policy),
}

/// The change each kind of edit declares.
pub open spec fn invalidation_of<Transform, Layout, Filter, Rate, Policy>(
    command: SceneEditCommand<Transform, Layout, Filter, Rate, Policy>,
) -> SceneChange {
    match command {
        SceneEditCommand::SetSourceSelected { .. } => SceneChange::SourceTopology,
        SceneEditCommand::MoveSource { .. } => SceneChange::SourceOrder,
        SceneEditCommand::SetTransform { .. } => SceneChange::Transform,
        SceneEditCommand::SetLayout(_) => SceneChange::Layout,
        SceneEditCommand::SetScalingFilter(_) => SceneChange::Scaling,
        SceneEditCommand::SetFrameRate(_) => SceneChange::FrameRate,
        SceneEditCommand::SetMissingSourcePolicy(_) => SceneChange::MissingSourcePolicy,
    }
}

impl<Transform, Layout, Filter, Rate, Policy> SceneEditCommand<
    Transform,
    Layout,
    Filter,
    Rate,
    Policy,
> {
    /// What applying this edit invalidates.
    pub fn invalidation(&self) -> (c: SceneChange)
        ensures
            c == invalidation_of(*self),
    {
        match self {
            SceneEditCommand::SetSourceSelected { .. } => SceneChange::SourceTopology,
            SceneEditCommand::MoveSource { .. } => SceneChange::SourceOrder,
            SceneEditCommand::SetTransform { .. } => SceneChange::Transform,
            SceneEditCommand::SetLayout(_) => SceneChange::Layout,
            SceneEditCommand::SetScalingFilter(_) => SceneChange::Scaling,
            SceneEditCommand::SetFrameRate(_) => SceneChange::FrameRate,
            SceneEditCommand::SetMissingSourcePolicy(_) => SceneChange::MissingSourcePolicy,
        }
    }
}

/// The identity of one captured frame: its source and the two counters that
/// tell it apart from the previous tick's.
#[derive(Debug, Clone, PartialEq, Eq)]
pub struct FrameFingerprint {
    pub source_id: String,
    pub sequence: u64,
    pub monotonic_timestamp_nanos: u64,
}

/// A frame fingerprint as values.
pub open spec fn fingerprint_view(f: FrameFingerprint) -> (Seq<char>, u64, u64) {
    (f.source_id@, f.sequence, f.monotonic_timestamp_nanos)
}

/// What the fingerprint records of a captured frame.
pub open spec fn frame_identity(frame: CapturedFrame) -> (Seq<char>, u64, u64) {
    (
        frame.spec_metadata().source_id@,
        frame.spec_metadata().sequence,
        frame.spec_metadata().timestamps.monotonic.0,
    )
}

/// What one composed output depends on: the frames it was built from, the
/// settings that shaped it, and whether it was published. Equal fingerprints
/// mean equal output, so an equal submission can be skipped.
#[derive(Debug, Clone, PartialEq, Eq)]
pub struct RenderFingerprint<Layout, Filter, Transform> {
    pub frames: Vec<Option<FrameFingerprint>>,
    pub layout: Layout,
    pub format: VideoFormat,
    pub scaling_filter: Filter,
    pub source_transforms: Vec<Transform>,
    pub publish_virtual: bool,
}

fn frame_fingerprint(frame: &CapturedFrame) -> (f: FrameFingerprint)
    ensures
        fingerprint_view(f) == frame_identity(*frame),
{
    let metadata = frame.metadata();
    FrameFingerprint {
        source_id: owned(metadata.source_id.as_str()),
        sequence: metadata.sequence,
        monotonic_timestamp_nanos: metadata.monotonic_timestamp().0,
    }
}

impl<Layout, Filter, Transform> RenderFingerprint<Layout, Filter, Transform> {
    /// The fingerprint of a render of `frames` under the given settings.
    pub fn new(
        frames: &[Option<CapturedFrame>],
        layout: Layout,
        format: VideoFormat,
        scaling_filter: Filter,
        source_transforms: Vec<Transform>,
        publish_virtual: bool,
    ) -> (r: Self)
        ensures
            r.frames@.len() == frames@.len(),
            forall|i: int|
                0 <= i < frames@.len() ==> match frames@[i] {
                    Some(frame) => (#[trigger] r.frames@[i]) matches Some(f) && fingerprint_view(f)
                        == frame_identity(frame),
                    None => r.frames@[i] is None,
                },
            r.layout == layout,
            r.format == format,
            r.scaling_filter == scaling_filter,
            r.source_transforms == source_transforms,
            r.publish_virtual == publish_virtual,
    {
        let mut prints: Vec<Option<FrameFingerprint>> = Vec::new();
        let mut i: usize = 0;
        while i < frames.len()
            invariant
                i <= frames@.len(),
                prints@.len() == i,
                forall|k: int|
                    0 <= k < i ==> match frames@[k] {
                        Some(frame) => (#[trigger] prints@[k]) matches Some(f) && fingerprint_view(
                            f,
                        ) == frame_identity(frame),
                        None => prints@[k] is None,
                    },
            decreases frames@.len() - i,
        {
            match &frames[i] {
                Some(frame) => prints.push(Some(frame_fingerprint(frame))),
                None => prints.push(None),
            }
            i = i + 1;
        }
        RenderFingerprint {
            frames: prints,
            layout,
            format,
            scaling_filter,
            source_transforms,
            publish_virtual,
        }
    }
}

} // verus!
