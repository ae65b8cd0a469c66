//! Camera devices, the frame-source seams a backend implements, and a
//! deterministic synthetic source.
use vstd::prelude::*;

use crate::config::VideoFormat;
use crate::error::CameraManError;
use crate::frame::{byte_len_result, CapturedFrame, Frame, FrameLimits, FrameMetadata, PixelFormat};
use crate::text::{owned, str_eq};

verus! {

/// One discovered camera and the locators it answered to before.
#[derive(Debug, Clone, PartialEq, Eq)]
pub struct CameraDevice {
    pub id: String,
    pub name: String,
    /// Previous/runtime locators that migrate to `id` when discovered.
    pub aliases: Vec<String>,
}

impl CameraDevice {
    pub fn new(id: &str, name: &str) -> (d: Self)
        ensures
            d.id@ == id@,
            d.name@ == name@,
            d.aliases@.len() == 0,
    {
        CameraDevice { id: owned(id), name: owned(name), aliases: Vec::new() }
    }

    pub fn with_aliases(id: &str, name: &str, aliases: Vec<String>) -> (d: Self)
        ensures
            d.id@ == id@,
            d.name@ == name@,
            d.aliases == aliases,
    {
        CameraDevice { id: owned(id), name: owned(name), aliases }
    }
}

/// `locator` is the device's id or one of its aliases.
pub open spec fn has_locator(device: CameraDevice, locator: Seq<char>) -> bool {
    device.id@ == locator || exists|i: int|
        0 <= i < device.aliases@.len() && (#[trigger] device.aliases@[i])@ == locator
}

/// Two locators name the same camera: they are equal, or one device answers
/// to both.
pub open spec fn locators_match(left: Seq<char>, right: Seq<char>, devices: Seq<CameraDevice>) -> bool {
    left == right || exists|d: int|
        0 <= d < devices.len() && has_locator(#[trigger] devices[d], left) && has_locator(
            devices[d],
            right,
        )
}

/// Whether `device` answers to `locator`.
pub fn device_has_locator(device: &CameraDevice, locator: &str) -> (b: bool)
    ensures
        b == has_locator(*device, locator@),
{
    if str_eq(device.id.as_str(), locator) {
        return true;
    }
    let mut i: usize = 0;
    while i < device.aliases.len()
        invariant
            i <= device.aliases@.len(),
            device.id@ != locator@,
            forall|k: int| 0 <= k < i ==> (#[trigger] device.aliases@[k])@ != locator@,
        decreases device.aliases@.len() - i,
    {
        if str_eq(device.aliases[i].as_str(), locator) {
            return true;
        }
        i = i + 1;
    }
    false
}

/// Whether two locators share one runtime identity.
pub fn camera_locators_match(left: &str, right: &str, devices: &[CameraDevice]) -> (b: bool)
    ensures
        b == locators_match(left@, right@, devices@),
{
    if str_eq(left, right) {
        return true;
    }
    let mut d: usize = 0;
    while d < devices.len()
        invariant
            d <= devices@.len(),
            left@ != right@,
            forall|k: int|
                0 <= k < d ==> !(has_locator(#[trigger] devices@[k], left@) && has_locator(
                    devices@[k],
                    right@,
                )),
        decreases devices@.len() - d,
    {
        if device_has_locator(&devices[d], left) && device_has_locator(&devices[d], right) {
            return true;
        }
        d = d + 1;
    }
    false
}

/// Enumerates camera-like inputs available to a backend.
pub trait CameraDiscovery {
    /// A point-in-time device list. Discovery may block.
    fn list_devices(&self) -> Result<Vec<CameraDevice>, CameraManError>;
}

/// Produces the newest frame for one logical input. `Ok(None)` means the
/// source is healthy but has no frame ready; failures are `Err`.
pub trait FrameSource {
    /// Reads or clones the newest available frame.
    fn latest_frame(&mut self) -> Result<Option<CapturedFrame>, CameraManError>;
}

/// A live capture source plus the device state its owner can read.
pub trait CameraRuntime: FrameSource {
    /// The device's real format, or `None` until the backend opened it.
    fn negotiated_format(&self) -> Option<VideoFormat>;

    /// The device's real frame rate, once known.
    fn negotiated_fps(&self) -> (fps: Option<u32>)
        ensures
            exists|format: Option<VideoFormat>|
                #[trigger] call_ensures(Self::negotiated_format, (self,), format) && fps == match format {
                    Some(f) => Some(f.fps),
                    None => None::<u32>,
                },
    {
        match self.negotiated_format() {
            Some(format) => Some(format.fps),
            None => None,
        }
    }

    /// Nanoseconds this source has gone without advancing, or zero while it
    /// is healthy or still within budget.
    fn stall_age(&self) -> u64;

    /// Whether a source that had already streamed has passed its frame-gap
    /// deadline.
    fn frame_gap_exceeded(&self) -> bool;
}

/// Deterministic solid-color source used by demos and tests.
#[derive(Debug, Clone)]
pub struct SyntheticFrameSource {
    source_id: String,
    width: u32,
    height: u32,
    bgra: [u8; 4],
    limits: FrameLimits,
    sequence: u64,
}

/// Mathematical content of a [`SyntheticFrameSource`].
pub struct SyntheticModel {
    pub source_id: Seq<char>,
    pub width: u32,
    pub height: u32,
    pub bgra: [u8; 4],
    pub limits: FrameLimits,
    pub sequence: u64,
}

impl View for SyntheticFrameSource {
    type V = SyntheticModel;

    closed spec fn view(&self) -> SyntheticModel {
        SyntheticModel {
            source_id: self.source_id@,
            width: self.width,
            height: self.height,
            bgra: self.bgra,
            limits: self.limits,
            sequence: self.sequence,
        }
    }
}

impl SyntheticFrameSource {
    /// A source with the stable id `synthetic` whose frames are sized under
    /// the process memory policy `limits`.
    pub fn new(width: u32, height: u32, bgra: [u8; 4], limits: FrameLimits) -> (s: Self)
        ensures
            s@ == (SyntheticModel {
                source_id: "synthetic"@,
                width,
                height,
                bgra,
                limits,
                sequence: 0,
            }),
    {
        Self::with_id("synthetic", width, height, bgra, limits)
    }

    /// A source with an explicit metadata id.
    pub fn with_id(source_id: &str, width: u32, height: u32, bgra: [u8; 4], limits: FrameLimits) -> (s:
        Self)
        ensures
            s@ == (SyntheticModel { source_id: source_id@, width, height, bgra, limits, sequence: 0 }),
    {
        SyntheticFrameSource { source_id: owned(source_id), width, height, bgra, limits, sequence: 0 }
    }
}

impl FrameSource for SyntheticFrameSource {
    /// Advances the sequence and returns a solid frame of the configured
    /// color stamped with it, or the sizing error of the configured geometry.
    fn latest_frame(&mut self) -> (r: Result<Option<CapturedFrame>, CameraManError>)
        ensures
            final(self)@ == (SyntheticModel {
                sequence: if old(self)@.sequence == u64::MAX {
                    0
                } else {
                    (old(self)@.sequence + 1) as u64
                },
                ..old(self)@
            }),
            match byte_len_result(
                old(self)@.width,
                old(self)@.height,
                PixelFormat::Bgra8,
                old(self)@.limits,
            ) {
                Err(e) => r == Err::<Option<CapturedFrame>, CameraManError>(e),
                Ok(_) => r matches Ok(Some(c)) && c.spec_metadata().source_id@ == old(self)@.source_id
                    && c.spec_metadata().sequence == final(self)@.sequence && c.spec_frame().wf()
                    && c.spec_frame()@.width == old(self)@.width && c.spec_frame()@.height == old(
                    self,
                )@.height,
            },
    {
        self.sequence = self.sequence.wrapping_add(1);
        let frame = match Frame::solid_bgra_with_limits(self.width, self.height, self.bgra, self.limits) {
            Ok(frame) => frame,
            Err(e) => {
                return Err(e);
            },
        };
        let metadata = FrameMetadata::new(self.source_id.as_str(), self.sequence);
        Ok(Some(CapturedFrame::new(frame, metadata)))
    }
}

} // verus!
