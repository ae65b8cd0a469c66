//! Fixed virtual camera identity and output format.
use vstd::prelude::*;

use crate::frame::PixelFormat;

verus! {

pub const VIRTUAL_CAMERA_DEVICE_UID: &'static str = "7F1D9A42-3C58-4E6B-9D0A-2B6F8C1E5A17";

pub const VIRTUAL_CAMERA_DEVICE_NAME: &'static str = "CameraMan Virtual Camera";

pub const VIRTUAL_CAMERA_STREAM_UID: &'static str = "A3B8C2D1-4E5F-4A6B-8C7D-9E0F1A2B3C4D";

pub const VIRTUAL_CAMERA_STREAM_NAME: &'static str = "CameraMan Output";

pub const VIRTUAL_CAMERA_WIDTH: u32 = 1920;

pub const VIRTUAL_CAMERA_HEIGHT: u32 = 1080;

pub const VIRTUAL_CAMERA_MIN_FPS: u32 = 15;

pub const VIRTUAL_CAMERA_DEFAULT_FPS: u32 = 30;

pub const VIRTUAL_CAMERA_MAX_FPS: u32 = 60;

pub const VIRTUAL_CAMERA_FPS_PRESETS: [u32; 3] = [24, 30, 60];

/// Geometry, cadence and pixel layout of a video stream.
#[derive(Debug, Clone, Copy, PartialEq, Eq, Hash, Structural)]
pub struct VideoFormat {
    pub width: u32,
    pub height: u32,
    pub fps: u32,
    pub pixel_format: PixelFormat,
}

impl VideoFormat {
    /// The 1920x1080 BGRA output format at the default 30 fps.
    pub fn hd_1080p_bgra() -> (f: Self)
        ensures
            f == (VideoFormat {
                width: VIRTUAL_CAMERA_WIDTH,
                height: VIRTUAL_CAMERA_HEIGHT,
                fps: VIRTUAL_CAMERA_DEFAULT_FPS,
                pixel_format: PixelFormat::Bgra8,
            }),
    {
        VideoFormat {
            width: VIRTUAL_CAMERA_WIDTH,
            height: VIRTUAL_CAMERA_HEIGHT,
            fps: VIRTUAL_CAMERA_DEFAULT_FPS,
            pixel_format: PixelFormat::Bgra8,
        }
    }
}

/// Identity and format the virtual camera device advertises.
#[derive(Debug, Clone, PartialEq, Eq)]
pub struct VirtualCameraConfig {
    pub device_uid: &'static str,
    pub device_name: &'static str,
    pub format: VideoFormat,
}

impl Default for VirtualCameraConfig {
    fn default() -> (c: Self)
        ensures
            c.device_uid@ == VIRTUAL_CAMERA_DEVICE_UID@,
            c.device_name@ == VIRTUAL_CAMERA_DEVICE_NAME@,
            c.format == (VideoFormat {
                width: VIRTUAL_CAMERA_WIDTH,
                height: VIRTUAL_CAMERA_HEIGHT,
                fps: VIRTUAL_CAMERA_DEFAULT_FPS,
                pixel_format: PixelFormat::Bgra8,
            }),
    {
        VirtualCameraConfig {
            device_uid: VIRTUAL_CAMERA_DEVICE_UID,
            device_name: VIRTUAL_CAMERA_DEVICE_NAME,
            format: VideoFormat::hd_1080p_bgra(),
        }
    }
}

} // verus!
