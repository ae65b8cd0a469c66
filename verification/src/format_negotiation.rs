//! The one output contract the virtual camera advertises, typed negotiation
//! against it, and the epoch that versions every committed format change.
use vstd::prelude::*;

use crate::config::{
    VideoFormat, VIRTUAL_CAMERA_DEFAULT_FPS, VIRTUAL_CAMERA_HEIGHT, VIRTUAL_CAMERA_MAX_FPS,
    VIRTUAL_CAMERA_MIN_FPS, VIRTUAL_CAMERA_WIDTH,
};
use crate::error::CameraManError;
use crate::frame::PixelFormat;
use crate::media_contract::{Colorimetry, FrameContract};

verus! {

/// How frames are delivered to a consumer.
#[derive(Debug, Clone, Copy, PartialEq, Eq, Structural)]
pub enum LatencyMode {
    InteractiveLatestFrame,
    BufferedQuality,
}

/// Who owns a delivered frame.
#[derive(Debug, Clone, Copy, PartialEq, Eq, Structural)]
pub enum FrameOwnershipMode {
    BorrowedUntilRelease,
    Owned,
}

/// What a stream can deliver.
#[derive(Debug, Clone, Copy, PartialEq, Eq, Structural)]
pub struct StreamCapability {
    pub width: u32,
    pub height: u32,
    pub pixel_format: PixelFormat,
    pub min_fps: u32,
    pub max_fps: u32,
    pub colorimetry: Colorimetry,
    pub latency_mode: LatencyMode,
    pub ownership: FrameOwnershipMode,
}

/// What a consumer asks for.
#[derive(Debug, Clone, Copy, PartialEq, Eq, Structural)]
pub struct StreamRequest {
    pub format: VideoFormat,
    pub colorimetry: Colorimetry,
    pub latency_mode: LatencyMode,
    pub ownership: FrameOwnershipMode,
}

/// An accepted request together with the frame contract it implies.
#[derive(Debug, Clone, Copy, PartialEq, Eq, Structural)]
pub struct NegotiatedStream {
    pub format: VideoFormat,
    pub contract: FrameContract,
    pub latency_mode: LatencyMode,
    pub ownership: FrameOwnershipMode,
}

/// The first part of a request the advertised capability does not cover.
#[derive(Debug, Clone, Copy, PartialEq, Eq, Structural)]
pub enum CapabilityRejection {
    Dimensions,
    PixelFormat,
    FrameRate,
    Colorimetry,
    LatencyMode,
    Ownership,
}

pub open spec fn rejection_text(r: CapabilityRejection) -> Seq<char> {
    match r {
        CapabilityRejection::Dimensions => "requested dimensions are not advertised"@,
        CapabilityRejection::PixelFormat => "requested pixel format is not advertised"@,
        CapabilityRejection::FrameRate => "requested frame rate is outside the advertised range"@,
        CapabilityRejection::Colorimetry => "requested color interpretation is not advertised"@,
        CapabilityRejection::LatencyMode => "requested latency mode is not implemented"@,
        CapabilityRejection::Ownership => "requested frame ownership mode is not implemented"@,
    }
}

impl CapabilityRejection {
    pub fn reason(self) -> (s: &'static str)
        ensures
            s@ == rejection_text(self),
    {
        match self {
            Self::Dimensions => "requested dimensions are not advertised",
            Self::PixelFormat => "requested pixel format is not advertised",
            Self::FrameRate => "requested frame rate is outside the advertised range",
            Self::Colorimetry => "requested color interpretation is not advertised",
            Self::LatencyMode => "requested latency mode is not implemented",
            Self::Ownership => "requested frame ownership mode is not implemented",
        }
    }
}

/// The single geometry and pixel format the output advertises, at the default
/// frame rate.
pub open spec fn spec_fixed_output_format() -> VideoFormat {
    VideoFormat {
        width: VIRTUAL_CAMERA_WIDTH,
        height: VIRTUAL_CAMERA_HEIGHT,
        fps: VIRTUAL_CAMERA_DEFAULT_FPS,
        pixel_format: PixelFormat::Bgra8,
    }
}

/// The capability the output advertises.
pub open spec fn spec_fixed_output_capability() -> StreamCapability {
    StreamCapability {
        width: VIRTUAL_CAMERA_WIDTH,
        height: VIRTUAL_CAMERA_HEIGHT,
        pixel_format: PixelFormat::Bgra8,
        min_fps: VIRTUAL_CAMERA_MIN_FPS,
        max_fps: VIRTUAL_CAMERA_MAX_FPS,
        colorimetry: Colorimetry::Bt709FullOpaque,
        latency_mode: LatencyMode::InteractiveLatestFrame,
        ownership: FrameOwnershipMode::BorrowedUntilRelease,
    }
}

#[verifier::when_used_as_spec(spec_fixed_output_format)]
pub fn fixed_output_format() -> (f: VideoFormat)
    ensures
        f == spec_fixed_output_format(),
{
    VideoFormat {
        width: VIRTUAL_CAMERA_WIDTH,
        height: VIRTUAL_CAMERA_HEIGHT,
        fps: VIRTUAL_CAMERA_DEFAULT_FPS,
        pixel_format: PixelFormat::Bgra8,
    }
}

#[verifier::when_used_as_spec(spec_fixed_output_capability)]
pub fn fixed_output_capability() -> (c: StreamCapability)
    ensures
        c == spec_fixed_output_capability(),
{
    StreamCapability {
        width: VIRTUAL_CAMERA_WIDTH,
        height: VIRTUAL_CAMERA_HEIGHT,
        pixel_format: PixelFormat::Bgra8,
        min_fps: VIRTUAL_CAMERA_MIN_FPS,
        max_fps: VIRTUAL_CAMERA_MAX_FPS,
        colorimetry: Colorimetry::Bt709FullOpaque,
        latency_mode: LatencyMode::InteractiveLatestFrame,
        ownership: FrameOwnershipMode::BorrowedUntilRelease,
    }
}

/// The first rejected part of a request, in the order dimensions, pixel
/// format, frame rate, colorimetry, latency mode, ownership.
pub open spec fn request_rejection(request: StreamRequest) -> Option<CapabilityRejection> {
    let c = spec_fixed_output_capability();
    if request.format.width != c.width || request.format.height != c.height {
        Some(CapabilityRejection::Dimensions)
    } else if request.format.pixel_format != c.pixel_format {
        Some(CapabilityRejection::PixelFormat)
    } else if !(c.min_fps <= request.format.fps && request.format.fps <= c.max_fps) {
        Some(CapabilityRejection::FrameRate)
    } else if request.colorimetry != c.colorimetry {
        Some(CapabilityRejection::Colorimetry)
    } else if request.latency_mode != c.latency_mode {
        Some(CapabilityRejection::LatencyMode)
    } else if request.ownership != c.ownership {
        Some(CapabilityRejection::Ownership)
    } else {
        None
    }
}

/// Accepts a request only when every part matches the advertised capability.
pub fn negotiate_stream(request: StreamRequest) -> (r: Result<NegotiatedStream, CapabilityRejection>)
    ensures
        match request_rejection(request) {
            Some(rejection) => r == Err::<NegotiatedStream, CapabilityRejection>(rejection),
            None => r == Ok::<NegotiatedStream, CapabilityRejection>(
                NegotiatedStream {
                    format: request.format,
                    contract: FrameContract {
                        width: request.format.width,
                        height: request.format.height,
                        colorimetry: request.colorimetry,
                    },
                    latency_mode: request.latency_mode,
                    ownership: request.ownership,
                },
            ),
        },
{
    let capability = fixed_output_capability();
    if request.format.width != capability.width || request.format.height != capability.height {
        return Err(CapabilityRejection::Dimensions);
    }
    if request.format.pixel_format != capability.pixel_format {
        return Err(CapabilityRejection::PixelFormat);
    }
    if !(capability.min_fps <= request.format.fps && request.format.fps <= capability.max_fps) {
        return Err(CapabilityRejection::FrameRate);
    }
    if request.colorimetry != capability.colorimetry {
        return Err(CapabilityRejection::Colorimetry);
    }
    if request.latency_mode != capability.latency_mode {
        return Err(CapabilityRejection::LatencyMode);
    }
    if request.ownership != capability.ownership {
        return Err(CapabilityRejection::Ownership);
    }
    let mut contract = FrameContract::canonical_bgra(request.format.width, request.format.height);
    contract.colorimetry = request.colorimetry;
    Ok(
        NegotiatedStream {
            format: request.format,
            contract,
            latency_mode: request.latency_mode,
            ownership: request.ownership,
        },
    )
}

/// The rejection of an output format, if any: the format is checked with the
/// advertised colorimetry, latency mode and ownership.
pub open spec fn format_rejection(format: VideoFormat) -> Option<CapabilityRejection> {
    request_rejection(
        StreamRequest {
            format,
            colorimetry: Colorimetry::Bt709FullOpaque,
            latency_mode: LatencyMode::InteractiveLatestFrame,
            ownership: FrameOwnershipMode::BorrowedUntilRelease,
        },
    )
}

/// The virtual camera advertises one tested geometry and pixel format; the
/// frame rate may vary within the supported range.
pub fn validate_advertised_format(format: VideoFormat) -> (r: Result<(), CameraManError>)
    ensures
        format_rejection(format) is None ==> r is Ok,
        format_rejection(format) matches Some(rejection) ==> (r matches Err(
            CameraManError::InvalidMediaContract(reason),
        ) && reason@ == rejection_text(rejection)),
{
    let capability = fixed_output_capability();
    match negotiate_stream(
        StreamRequest {
            format,
            colorimetry: capability.colorimetry,
            latency_mode: capability.latency_mode,
            ownership: capability.ownership,
        },
    ) {
        Ok(_) => Ok(()),
        Err(rejection) => Err(CameraManError::InvalidMediaContract(rejection.reason())),
    }
}

/// A committed format and the epoch that versions it.
#[derive(Debug, Clone, Copy, PartialEq, Eq, Structural)]
pub struct FormatSnapshot {
    pub epoch: u64,
    pub format: VideoFormat,
}

/// One committed format change.
#[derive(Debug, Clone, Copy, PartialEq, Eq, Structural)]
pub struct FormatTransition {
    pub previous: FormatSnapshot,
    pub current: FormatSnapshot,
}

/// Owner of the current output format and its epoch.
#[derive(Debug)]
pub struct FormatEpochCoordinator {
    state: FormatSnapshot,
}

/// The epoch after `epoch`: wrapping increment, never zero.
pub open spec fn next_epoch(epoch: u64) -> u64 {
    if epoch == u64::MAX {
        1
    } else {
        (epoch + 1) as u64
    }
}

/// The epoch after `commits` committed transitions from `start`.
pub open spec fn epoch_after_commits(start: u64, commits: nat) -> u64
    decreases commits,
{
    if commits == 0 {
        start
    } else {
        next_epoch(epoch_after_commits(start, (commits - 1) as nat))
    }
}

/// From a nonzero epoch, such as the first one, no sequence of committed
/// transitions reaches epoch zero, the wrap past `u64::MAX` included.
pub proof fn law_epoch_never_zero(start: u64, commits: nat)
    requires
        start != 0,
    ensures
        epoch_after_commits(start, commits) != 0,
    decreases commits,
{
    if commits > 0 {
        law_epoch_never_zero(start, (commits - 1) as nat);
    }
}

impl View for FormatEpochCoordinator {
    type V = FormatSnapshot;

    closed spec fn view(&self) -> FormatSnapshot {
        self.state
    }
}

impl Default for FormatEpochCoordinator {
    fn default() -> (c: Self)
        ensures
            c@ == (FormatSnapshot { epoch: 1, format: spec_fixed_output_format() }),
    {
        Self::new(fixed_output_format())
    }
}

impl FormatEpochCoordinator {
    /// A committed epoch is never zero.
    #[verifier::type_invariant]
    spec fn epoch_nonzero(self) -> bool {
        self.state.epoch != 0
    }

    /// A coordinator at epoch 1.
    pub fn new(format: VideoFormat) -> (c: Self)
        ensures
            c@ == (FormatSnapshot { epoch: 1, format }),
    {
        FormatEpochCoordinator { state: FormatSnapshot { epoch: 1, format } }
    }

    /// The committed format and epoch.
    pub fn snapshot(&self) -> (s: FormatSnapshot)
        ensures
            s == self@,
            s.epoch != 0,
    {
        proof {
            use_type_invariant(self);
        }
        self.state
    }

    /// Commits `next` and a new epoch only after `reset_resources` has reset
    /// every format-bound resource for the candidate snapshot. An unsupported
    /// format is answered with the validation error before any reset, and an
    /// unchanged format is not a transition and resets nothing; a failed reset
    /// leaves the committed state unchanged.
    pub fn renegotiate<F>(&mut self, next: VideoFormat, reset_resources: F) -> (r: Result<
        Option<FormatTransition>,
        CameraManError,
    >) where F: FnOnce(FormatSnapshot) -> Result<(), CameraManError>
        requires
            forall|candidate: FormatSnapshot| reset_resources.requires((candidate,)),
        ensures
            format_rejection(next) matches Some(rejection) ==> (r matches Err(
                CameraManError::InvalidMediaContract(reason),
            ) && reason@ == rejection_text(rejection)) && final(self)@ == old(self)@,
            format_rejection(next) is None && old(self)@.format == next ==> r == Ok::<
                Option<FormatTransition>,
                CameraManError,
            >(None) && final(self)@ == old(self)@,
            r is Err ==> final(self)@ == old(self)@,
            final(self)@.epoch != 0,
            r matches Ok(Some(t)) ==> {
                let candidate = FormatSnapshot { epoch: next_epoch(old(self)@.epoch), format: next };
                &&& format_rejection(next) is None
                &&& old(self)@.format != next
                &&& t == (FormatTransition { previous: old(self)@, current: candidate })
                &&& final(self)@ == candidate
                &&& exists|reset: Result<(), CameraManError>|
                    #[trigger] reset_resources.ensures((candidate,), reset) && reset is Ok
            },
            format_rejection(next) is None && old(self)@.format != next ==> {
                let candidate = FormatSnapshot { epoch: next_epoch(old(self)@.epoch), format: next };
                &&& r matches Err(e) ==> reset_resources.ensures(
                    (candidate,),
                    Err::<(), CameraManError>(e),
                )
                &&& r is Ok ==> r == Ok::<Option<FormatTransition>, CameraManError>(
                    Some(FormatTransition { previous: old(self)@, current: candidate }),
                )
            },
    {
        proof {
            use_type_invariant(&*self);
        }
        match validate_advertised_format(next) {
            Ok(()) => {},
            Err(e) => {
                return Err(e);
            },
        }
        if self.state.format == next {
            return Ok(None);
        }
        let previous = self.state;
        let epoch = if self.state.epoch == u64::MAX {
            1
        } else {
            self.state.epoch + 1
        };
        let candidate = FormatSnapshot { epoch, format: next };
        let reset = reset_resources(candidate);
        match reset {
            Ok(()) => {
                assert(reset_resources.ensures((candidate,), reset) && reset is Ok);
            },
            Err(e) => {
                return Err(e);
            },
        }
        self.state = candidate;
        proof {
            use_type_invariant(&*self);
        }
        Ok(Some(FormatTransition { previous, current: candidate }))
    }
}

/// A request is accepted exactly when it asks for the advertised geometry
/// and pixel format, a frame rate within the advertised range
/// (`VIRTUAL_CAMERA_MIN_FPS..=VIRTUAL_CAMERA_MAX_FPS`), and the advertised
/// color interpretation, latency mode and frame ownership; the advertised
/// geometry and pixel format at a rate outside that range is refused for
/// its frame rate.
pub proof fn law_accepted_requests_are_within_the_capability(request: StreamRequest)
    ensures
        request_rejection(request) is None <==> {
            &&& request.format.width == VIRTUAL_CAMERA_WIDTH
            &&& request.format.height == VIRTUAL_CAMERA_HEIGHT
            &&& request.format.pixel_format == PixelFormat::Bgra8
            &&& VIRTUAL_CAMERA_MIN_FPS <= request.format.fps <= VIRTUAL_CAMERA_MAX_FPS
            &&& request.colorimetry == Colorimetry::Bt709FullOpaque
            &&& request.latency_mode == LatencyMode::InteractiveLatestFrame
            &&& request.ownership == FrameOwnershipMode::BorrowedUntilRelease
        },
        request.format.width == VIRTUAL_CAMERA_WIDTH && request.format.height
            == VIRTUAL_CAMERA_HEIGHT && request.format.pixel_format == PixelFormat::Bgra8 && !(
        VIRTUAL_CAMERA_MIN_FPS <= request.format.fps <= VIRTUAL_CAMERA_MAX_FPS)
            ==> request_rejection(request) == Some(CapabilityRejection::FrameRate),
        format_rejection(request.format) is None ==> VIRTUAL_CAMERA_MIN_FPS <= request.format.fps
            <= VIRTUAL_CAMERA_MAX_FPS,
{
}

} // verus!
