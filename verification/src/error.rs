//! Structured errors: a stable machine code, a user-facing cause and a
//! recovery step for every failure, plus the heuristic classifier that maps
//! vendor capture messages onto [`CaptureErrorKind`].
use vstd::prelude::*;

use crate::text::{
    ascii_lower, contains_seq, decimal, lower_chars, chars_contain, push_decimal, push_str,
    str_chars, string_from_chars,
};

verus! {

/// Coarse classification of a capture failure, so callers can decide whether
/// retrying makes sense (Disconnected/DeviceBusy) or the user must act first
/// (PermissionDenied).
#[derive(Debug, Clone, Copy, PartialEq, Eq, Hash)]
pub enum CaptureErrorKind {
    /// The OS denied camera access.
    PermissionDenied,
    /// Another process is already using the device.
    DeviceBusy,
    /// The requested device id/index does not exist.
    DeviceNotFound,
    /// The device was unplugged or the stream stopped unexpectedly.
    Disconnected,
    /// The backend does not support the requested operation.
    Unsupported,
    /// A bounded capture operation did not finish before its deadline.
    Timeout,
    /// Anything not classified above.
    Other,
}

// ---------------------------------------------------------------------------
// Profile texts
// ---------------------------------------------------------------------------

pub open spec fn reconnect_text() -> Seq<char> {
    "Reconnect the camera, refresh the source list, then retry."@
}

/// Stable code of a capture failure kind.
pub open spec fn capture_code_text(kind: CaptureErrorKind) -> Seq<char> {
    match kind {
        CaptureErrorKind::Timeout => "capture_timeout"@,
        CaptureErrorKind::DeviceNotFound => "capture_device_not_found"@,
        CaptureErrorKind::Disconnected => "capture_disconnected"@,
        CaptureErrorKind::PermissionDenied => "capture_permission_denied"@,
        CaptureErrorKind::DeviceBusy => "capture_device_busy"@,
        CaptureErrorKind::Unsupported => "capture_unsupported"@,
        CaptureErrorKind::Other => "capture_other"@,
    }
}

/// User-facing cause of a capture failure kind.
pub open spec fn capture_cause_text(kind: CaptureErrorKind) -> Seq<char> {
    match kind {
        CaptureErrorKind::Timeout => "The camera did not respond in time."@,
        CaptureErrorKind::DeviceNotFound => "The selected camera is no longer available."@,
        CaptureErrorKind::Disconnected => "The camera disconnected or stopped."@,
        CaptureErrorKind::PermissionDenied =>
            "Camera access was denied. Allow CameraMan in System Settings > Privacy & Security > Camera."@,
        CaptureErrorKind::DeviceBusy => "The camera is already in use by another app."@,
        CaptureErrorKind::Unsupported => "This camera operation is not supported."@,
        CaptureErrorKind::Other => "Camera capture failed."@,
    }
}

/// Recovery step for a capture failure kind.
pub open spec fn capture_recovery_text(kind: CaptureErrorKind) -> Seq<char> {
    match kind {
        CaptureErrorKind::Timeout =>
            "Check the camera connection and retry; export diagnostics if it repeats."@,
        CaptureErrorKind::DeviceNotFound => reconnect_text(),
        CaptureErrorKind::Disconnected => reconnect_text(),
        CaptureErrorKind::PermissionDenied =>
            "Open System Settings > Privacy & Security > Camera, allow CameraMan, then retry."@,
        CaptureErrorKind::DeviceBusy => "Close the other app using this camera, then retry."@,
        CaptureErrorKind::Unsupported => "Choose a supported camera format or a different source."@,
        CaptureErrorKind::Other => "Retry once, then export diagnostics if the failure repeats."@,
    }
}

/// `Debug` spelling of a capture failure kind.
pub open spec fn capture_kind_name(kind: CaptureErrorKind) -> Seq<char> {
    match kind {
        CaptureErrorKind::PermissionDenied => "PermissionDenied"@,
        CaptureErrorKind::DeviceBusy => "DeviceBusy"@,
        CaptureErrorKind::DeviceNotFound => "DeviceNotFound"@,
        CaptureErrorKind::Disconnected => "Disconnected"@,
        CaptureErrorKind::Unsupported => "Unsupported"@,
        CaptureErrorKind::Timeout => "Timeout"@,
        CaptureErrorKind::Other => "Other"@,
    }
}

// ---------------------------------------------------------------------------
// Classifier table
// ---------------------------------------------------------------------------

/// The classifier rows in priority order: each row is a kind and the
/// lowercase needles that select it.
pub open spec fn classifier_rows() -> Seq<(CaptureErrorKind, Seq<Seq<char>>)> {
    seq![
        (CaptureErrorKind::Timeout, seq!["timed out"@, "timeout"@]),
        (CaptureErrorKind::DeviceNotFound, seq!["not found"@, "no such device"@]),
        (CaptureErrorKind::Disconnected, seq!["disconnect"@, "unplug"@, "stopped"@]),
        (CaptureErrorKind::PermissionDenied, seq!["permission"@, "denied"@, "authoriz"@]),
        (
            CaptureErrorKind::DeviceBusy,
            seq![
                "busy"@,
                "in use"@,
                "already open"@,
                "already streaming"@,
                "already capturing"@,
            ],
        ),
        (CaptureErrorKind::Unsupported, seq!["not supported"@, "not implemented"@]),
    ]
}

/// Some needle of `needles` occurs in `text`.
pub open spec fn contains_any(text: Seq<char>, needles: Seq<Seq<char>>) -> bool {
    exists|j: int| 0 <= j < needles.len() && contains_seq(text, #[trigger] needles[j])
}

/// Kind of the first row, from `row` on, with a needle in `lower`.
pub open spec fn first_matching_kind(lower: Seq<char>, row: int) -> CaptureErrorKind
    decreases classifier_rows().len() - row,
{
    if row < 0 || row >= classifier_rows().len() {
        CaptureErrorKind::Other
    } else if contains_any(lower, classifier_rows()[row].1) {
        classifier_rows()[row].0
    } else {
        first_matching_kind(lower, row + 1)
    }
}

/// Heuristic classification: case-insensitive (ASCII) substring search of the
/// classifier rows in order; the first row with a matching needle decides.
pub open spec fn classify_message(message: Seq<char>) -> CaptureErrorKind {
    first_matching_kind(ascii_lower(message), 0)
}

impl CaptureErrorKind {
    /// Stable code, user-facing cause and recovery step for this kind.
    pub fn profile(self) -> (p: (&'static str, &'static str, &'static str))
        ensures
            p.0@ == capture_code_text(self),
            p.1@ == capture_cause_text(self),
            p.2@ == capture_recovery_text(self),
    {
        match self {
            Self::Timeout => (
                "capture_timeout",
                "The camera did not respond in time.",
                "Check the camera connection and retry; export diagnostics if it repeats.",
            ),
            Self::DeviceNotFound => (
                "capture_device_not_found",
                "The selected camera is no longer available.",
                "Reconnect the camera, refresh the source list, then retry.",
            ),
            Self::Disconnected => (
                "capture_disconnected",
                "The camera disconnected or stopped.",
                "Reconnect the camera, refresh the source list, then retry.",
            ),
            Self::PermissionDenied => (
                "capture_permission_denied",
                "Camera access was denied. Allow CameraMan in System Settings > Privacy & Security > Camera.",
                "Open System Settings > Privacy & Security > Camera, allow CameraMan, then retry.",
            ),
            Self::DeviceBusy => (
                "capture_device_busy",
                "The camera is already in use by another app.",
                "Close the other app using this camera, then retry.",
            ),
            Self::Unsupported => (
                "capture_unsupported",
                "This camera operation is not supported.",
                "Choose a supported camera format or a different source.",
            ),
            Self::Other => (
                "capture_other",
                "Camera capture failed.",
                "Retry once, then export diagnostics if the failure repeats.",
            ),
        }
    }

    /// The `Debug` spelling of this kind.
    pub fn debug_name(self) -> (name: &'static str)
        ensures
            name@ == capture_kind_name(self),
    {
        match self {
            Self::PermissionDenied => "PermissionDenied",
            Self::DeviceBusy => "DeviceBusy",
            Self::DeviceNotFound => "DeviceNotFound",
            Self::Disconnected => "Disconnected",
            Self::Unsupported => "Unsupported",
            Self::Timeout => "Timeout",
            Self::Other => "Other",
        }
    }

    /// The classifier table in priority order, as the kind of each row and its
    /// lowercase needles.
    pub fn classifiers() -> (rows: Vec<(CaptureErrorKind, Vec<&'static str>)>)
        ensures
            rows@.len() == classifier_rows().len(),
            forall|i: int|
                0 <= i < rows@.len() ==> {
                    &&& (#[trigger] rows@[i]).0 == classifier_rows()[i].0
                    &&& rows@[i].1@.len() == classifier_rows()[i].1.len()
                    &&& forall|j: int|
                        0 <= j < rows@[i].1@.len() ==> (#[trigger] rows@[i].1@[j])@
                            == classifier_rows()[i].1[j]
                },
    {
        let rows = vec![
            (CaptureErrorKind::Timeout, vec!["timed out", "timeout"]),
            (CaptureErrorKind::DeviceNotFound, vec!["not found", "no such device"]),
            (CaptureErrorKind::Disconnected, vec!["disconnect", "unplug", "stopped"]),
            (CaptureErrorKind::PermissionDenied, vec!["permission", "denied", "authoriz"]),
            (
                CaptureErrorKind::DeviceBusy,
                vec!["busy", "in use", "already open", "already streaming", "already capturing"],
            ),
            (CaptureErrorKind::Unsupported, vec!["not supported", "not implemented"]),
        ];
        assert(rows@.len() == classifier_rows().len());
        assert forall|i: int|
            0 <= i < rows@.len() implies {
                &&& (#[trigger] rows@[i]).0 == classifier_rows()[i].0
                &&& rows@[i].1@.len() == classifier_rows()[i].1.len()
                &&& forall|j: int|
                    0 <= j < rows@[i].1@.len() ==> (#[trigger] rows@[i].1@[j])@
                        == classifier_rows()[i].1[j]
            } by {
        }
        rows
    }

    /// Heuristic classification from an error message: ASCII case-insensitive
    /// substring matching, rows checked in table order.
    pub fn classify(message: &str) -> (kind: Self)
        ensures
            kind == classify_message(message@),
    {
        let chars = str_chars(message);
        let lower = lower_chars(chars.as_slice());
        let rows = Self::classifiers();
        let mut r: usize = 0;
        while r < rows.len()
            invariant
                lower@ == ascii_lower(message@),
                rows@.len() == classifier_rows().len(),
                forall|i: int|
                    0 <= i < rows@.len() ==> {
                        &&& (#[trigger] rows@[i]).0 == classifier_rows()[i].0
                        &&& rows@[i].1@.len() == classifier_rows()[i].1.len()
                        &&& forall|j: int|
                            0 <= j < rows@[i].1@.len() ==> (#[trigger] rows@[i].1@[j])@
                                == classifier_rows()[i].1[j]
                    },
                r <= rows@.len(),
                first_matching_kind(lower@, 0) == first_matching_kind(lower@, r as int),
            decreases rows@.len() - r,
        {
            let needles = &rows[r].1;
            let mut j: usize = 0;
            let mut found = false;
            while j < needles.len()
                invariant
                    needles@ == rows@[r as int].1@,
                    needles@.len() == classifier_rows()[r as int].1.len(),
                    forall|k: int|
                        0 <= k < needles@.len() ==> (#[trigger] needles@[k])@
                            == classifier_rows()[r as int].1[k],
                    j <= needles@.len(),
                    found == exists|k: int|
                        0 <= k < j && contains_seq(lower@, #[trigger] classifier_rows()[r as int].1[k]),
                decreases needles@.len() - j,
            {
                let needle = str_chars(needles[j]);
                if chars_contain(lower.as_slice(), needle.as_slice()) {
                    found = true;
                }
                j = j + 1;
            }
            if found {
                return rows[r].0;
            }
            r = r + 1;
        }
        CaptureErrorKind::Other
    }
}

/// Stable machine-readable classification for logs, metrics and UI routing.
#[derive(Debug, Clone, Copy, PartialEq, Eq, Hash)]
pub enum ErrorCode {
    EmptyInput,
    EmptyFrame,
    Capture(CaptureErrorKind),
    InvalidDimensions,
    InvalidBufferLength,
    InvalidRowStride,
    InvalidMediaContract,
    PixelOutOfBounds,
    BufferTooLarge,
    FrameLimitExceeded,
    Io,
    UnsupportedPixelFormat,
    VirtualCameraUnavailable,
}

pub open spec fn frame_defect_text() -> Seq<char> {
    "Stop output, retry with another source, and export diagnostics if it repeats."@
}

pub open spec fn over_budget_text() -> Seq<char> {
    "A video frame exceeds the configured memory budget."@
}

pub open spec fn smaller_source_text() -> Seq<char> {
    "Use a smaller source format or reduce the configured frame size."@
}

/// Stable code text of an error code.
pub open spec fn code_text(code: ErrorCode) -> Seq<char> {
    match code {
        ErrorCode::EmptyInput => "empty_input"@,
        ErrorCode::EmptyFrame => "empty_frame"@,
        ErrorCode::Capture(kind) => capture_code_text(kind),
        ErrorCode::InvalidDimensions => "invalid_dimensions"@,
        ErrorCode::InvalidBufferLength => "invalid_buffer_length"@,
        ErrorCode::InvalidRowStride => "invalid_row_stride"@,
        ErrorCode::InvalidMediaContract => "invalid_media_contract"@,
        ErrorCode::PixelOutOfBounds => "pixel_out_of_bounds"@,
        ErrorCode::BufferTooLarge => "buffer_too_large"@,
        ErrorCode::FrameLimitExceeded => "frame_limit_exceeded"@,
        ErrorCode::Io => "io"@,
        ErrorCode::UnsupportedPixelFormat => "unsupported_pixel_format"@,
        ErrorCode::VirtualCameraUnavailable => "virtual_camera_unavailable"@,
    }
}

/// User-facing cause of an error code.
pub open spec fn cause_text(code: ErrorCode) -> Seq<char> {
    match code {
        ErrorCode::EmptyInput => "No input frames are available."@,
        ErrorCode::EmptyFrame => "A camera returned an empty frame."@,
        ErrorCode::Capture(kind) => capture_cause_text(kind),
        ErrorCode::InvalidDimensions => "A video frame had invalid dimensions."@,
        ErrorCode::InvalidBufferLength => "A video frame contained incomplete pixel data."@,
        ErrorCode::InvalidRowStride => "A video frame used an invalid row stride."@,
        ErrorCode::InvalidMediaContract =>
            "A video frame used invalid color or geometry metadata."@,
        ErrorCode::PixelOutOfBounds => "A pixel operation was outside the video frame."@,
        ErrorCode::BufferTooLarge => over_budget_text(),
        ErrorCode::FrameLimitExceeded => over_budget_text(),
        ErrorCode::Io => "A file or system operation failed."@,
        ErrorCode::UnsupportedPixelFormat => "The video pixel format is not supported."@,
        ErrorCode::VirtualCameraUnavailable => "Virtual camera output is unavailable."@,
    }
}

/// Recovery step of an error code.
pub open spec fn recovery_text(code: ErrorCode) -> Seq<char> {
    match code {
        ErrorCode::EmptyInput => "Select at least one available source, then retry."@,
        ErrorCode::EmptyFrame => "Reconnect the source or choose another camera, then retry."@,
        ErrorCode::Capture(kind) => capture_recovery_text(kind),
        ErrorCode::InvalidDimensions => frame_defect_text(),
        ErrorCode::InvalidBufferLength => frame_defect_text(),
        ErrorCode::InvalidRowStride => frame_defect_text(),
        ErrorCode::InvalidMediaContract => frame_defect_text(),
        ErrorCode::PixelOutOfBounds => frame_defect_text(),
        ErrorCode::UnsupportedPixelFormat => frame_defect_text(),
        ErrorCode::BufferTooLarge => smaller_source_text(),
        ErrorCode::FrameLimitExceeded => smaller_source_text(),
        ErrorCode::Io => "Check the destination, permissions, and free disk space, then retry."@,
        ErrorCode::VirtualCameraUnavailable =>
            "Open Setup, complete extension activation, then run the self-test."@,
    }
}

impl ErrorCode {
    /// Stable code, user-facing cause and recovery step, each fully determined
    /// by the code.
    pub fn profile(self) -> (p: (&'static str, &'static str, &'static str))
        ensures
            p.0@ == code_text(self),
            p.1@ == cause_text(self),
            p.2@ == recovery_text(self),
    {
        match self {
            Self::EmptyInput => (
                "empty_input",
                "No input frames are available.",
                "Select at least one available source, then retry.",
            ),
            Self::EmptyFrame => (
                "empty_frame",
                "A camera returned an empty frame.",
                "Reconnect the source or choose another camera, then retry.",
            ),
            Self::Capture(kind) => kind.profile(),
            Self::InvalidDimensions => (
                "invalid_dimensions",
                "A video frame had invalid dimensions.",
                "Stop output, retry with another source, and export diagnostics if it repeats.",
            ),
            Self::InvalidBufferLength => (
                "invalid_buffer_length",
                "A video frame contained incomplete pixel data.",
                "Stop output, retry with another source, and export diagnostics if it repeats.",
            ),
            Self::InvalidRowStride => (
                "invalid_row_stride",
                "A video frame used an invalid row stride.",
                "Stop output, retry with another source, and export diagnostics if it repeats.",
            ),
            Self::InvalidMediaContract => (
                "invalid_media_contract",
                "A video frame used invalid color or geometry metadata.",
                "Stop output, retry with another source, and export diagnostics if it repeats.",
            ),
            Self::PixelOutOfBounds => (
                "pixel_out_of_bounds",
                "A pixel operation was outside the video frame.",
                "Stop output, retry with another source, and export diagnostics if it repeats.",
            ),
            Self::UnsupportedPixelFormat => (
                "unsupported_pixel_format",
                "The video pixel format is not supported.",
                "Stop output, retry with another source, and export diagnostics if it repeats.",
            ),
            Self::BufferTooLarge => (
                "buffer_too_large",
                "A video frame exceeds the configured memory budget.",
                "Use a smaller source format or reduce the configured frame size.",
            ),
            Self::FrameLimitExceeded => (
                "frame_limit_exceeded",
                "A video frame exceeds the configured memory budget.",
                "Use a smaller source format or reduce the configured frame size.",
            ),
            Self::Io => (
                "io",
                "A file or system operation failed.",
                "Check the destination, permissions, and free disk space, then retry.",
            ),
            Self::VirtualCameraUnavailable => (
                "virtual_camera_unavailable",
                "Virtual camera output is unavailable.",
                "Open Setup, complete extension activation, then run the self-test.",
            ),
        }
    }

    /// The stable code text.
    pub fn as_str(self) -> (s: &'static str)
        ensures
            s@ == code_text(self),
    {
        self.profile().0
    }
}

/// The `std::io::ErrorKind` carried by an I/O failure.
#[verifier::external_type_specification]
#[verifier::external_body]
pub struct ExIoErrorKind(std::io::ErrorKind);

/// `ErrorKind` is `Copy`; its `clone` returns the same kind.
pub assume_specification[ <std::io::ErrorKind as Clone>::clone ](kind: &std::io::ErrorKind) -> (res:
    std::io::ErrorKind)
    ensures
        res == *kind,
;

#[allow(inconsistent_fields)]
/// Every failure this library reports.
#[derive(Debug, PartialEq, Eq)]
pub enum CameraManError {
    EmptyInput,
    EmptyFrame,
    Capture { kind: CaptureErrorKind, message: String },
    InvalidDimensions { width: u32, height: u32 },
    InvalidBufferLength { expected: usize, actual: usize },
    InvalidRowStride { minimum: usize, actual: usize },
    InvalidMediaContract(&'static str),
    PixelOutOfBounds { x: u32, y: u32, width: u32, height: u32 },
    BufferTooLarge { bytes: u64 },
    FrameLimitExceeded { bytes: u64, limit: u64 },
    Io { kind: std::io::ErrorKind, message: String },
    UnsupportedPixelFormat,
    VirtualCameraUnavailable(&'static str),
    Context { operation: String, source: Box<CameraManError> },
}

/// The error code of an error; a context wrapper keeps its source's code.
pub open spec fn error_code(e: CameraManError) -> ErrorCode
    decreases e,
{
    match e {
        CameraManError::EmptyInput => ErrorCode::EmptyInput,
        CameraManError::EmptyFrame => ErrorCode::EmptyFrame,
        CameraManError::Capture { kind, .. } => ErrorCode::Capture(kind),
        CameraManError::InvalidDimensions { .. } => ErrorCode::InvalidDimensions,
        CameraManError::InvalidBufferLength { .. } => ErrorCode::InvalidBufferLength,
        CameraManError::InvalidRowStride { .. } => ErrorCode::InvalidRowStride,
        CameraManError::InvalidMediaContract(_) => ErrorCode::InvalidMediaContract,
        CameraManError::PixelOutOfBounds { .. } => ErrorCode::PixelOutOfBounds,
        CameraManError::BufferTooLarge { .. } => ErrorCode::BufferTooLarge,
        CameraManError::FrameLimitExceeded { .. } => ErrorCode::FrameLimitExceeded,
        CameraManError::Io { .. } => ErrorCode::Io,
        CameraManError::UnsupportedPixelFormat => ErrorCode::UnsupportedPixelFormat,
        CameraManError::VirtualCameraUnavailable(_) => ErrorCode::VirtualCameraUnavailable,
        CameraManError::Context { source, .. } => error_code(*source),
    }
}

/// The `Debug` spelling of an I/O error kind.
pub uninterp spec fn io_error_kind_name(kind: std::io::ErrorKind) -> Seq<char>;

/// `Debug` text of an I/O error kind (`format!("{kind:?}")`); the result is a
/// function of the kind alone.
#[verifier::external_body]
fn io_error_kind_text(kind: std::io::ErrorKind) -> (text: String)
    ensures
        text@ == io_error_kind_name(kind),
{
    format!("{kind:?}")
}

/// The full technical description of an error, context first.
pub open spec fn diagnostic_text(e: CameraManError) -> Seq<char>
    decreases e,
{
    match e {
        CameraManError::EmptyInput => "no input frames were provided"@,
        CameraManError::EmptyFrame => "frame has no pixels"@,
        CameraManError::Capture { kind, message } =>
            "capture error ("@ + capture_kind_name(kind) + "): "@ + message@,
        CameraManError::InvalidDimensions { width, height } =>
            "invalid frame dimensions: "@ + decimal(width as nat) + "x"@ + decimal(height as nat),
        CameraManError::InvalidBufferLength { expected, actual } =>
            "invalid buffer length: expected "@ + decimal(expected as nat) + " bytes, got "@
                + decimal(actual as nat),
        CameraManError::InvalidRowStride { minimum, actual } =>
            "invalid row stride: minimum "@ + decimal(minimum as nat) + " bytes, got "@
                + decimal(actual as nat),
        CameraManError::InvalidMediaContract(reason) => "invalid media contract: "@ + reason@,
        CameraManError::PixelOutOfBounds { x, y, width, height } =>
            "pixel ("@ + decimal(x as nat) + ", "@ + decimal(y as nat) + ") is outside frame "@
                + decimal(width as nat) + "x"@ + decimal(height as nat),
        CameraManError::BufferTooLarge { bytes } =>
            "frame buffer too large: "@ + decimal(bytes as nat) + " bytes"@,
        CameraManError::FrameLimitExceeded { bytes, limit } =>
            "frame needs "@ + decimal(bytes as nat) + " bytes, configured limit is "@
                + decimal(limit as nat) + " bytes"@,
        CameraManError::Io { kind, message } =>
            "io error ("@ + io_error_kind_name(kind) + "): "@ + message@,
        CameraManError::UnsupportedPixelFormat => "unsupported pixel format"@,
        CameraManError::VirtualCameraUnavailable(reason) =>
            "virtual camera unavailable: "@ + reason@,
        CameraManError::Context { operation, source } =>
            operation@ + ": "@ + diagnostic_text(*source),
    }
}

impl Clone for CameraManError {
    fn clone(&self) -> (e: Self)
        ensures
            e == *self,
    {
        self.duplicate()
    }
}

impl CameraManError {
    /// A structurally equal copy of this error.
    pub fn duplicate(&self) -> (e: Self)
        ensures
            e == *self,
        decreases *self,
    {
        match self {
            Self::EmptyInput => Self::EmptyInput,
            Self::EmptyFrame => Self::EmptyFrame,
            Self::Capture { kind, message } => Self::Capture { kind: *kind, message: message.clone() },
            Self::InvalidDimensions { width, height } => Self::InvalidDimensions {
                width: *width,
                height: *height,
            },
            Self::InvalidBufferLength { expected, actual } => Self::InvalidBufferLength {
                expected: *expected,
                actual: *actual,
            },
            Self::InvalidRowStride { minimum, actual } => Self::InvalidRowStride {
                minimum: *minimum,
                actual: *actual,
            },
            Self::InvalidMediaContract(reason) => Self::InvalidMediaContract(reason),
            Self::PixelOutOfBounds { x, y, width, height } => Self::PixelOutOfBounds {
                x: *x,
                y: *y,
                width: *width,
                height: *height,
            },
            Self::BufferTooLarge { bytes } => Self::BufferTooLarge { bytes: *bytes },
            Self::FrameLimitExceeded { bytes, limit } => Self::FrameLimitExceeded {
                bytes: *bytes,
                limit: *limit,
            },
            Self::Io { kind, message } => Self::Io { kind: *kind, message: message.clone() },
            Self::UnsupportedPixelFormat => Self::UnsupportedPixelFormat,
            Self::VirtualCameraUnavailable(reason) => Self::VirtualCameraUnavailable(reason),
            Self::Context { operation, source } => Self::Context {
                operation: operation.clone(),
                source: Box::new(source.duplicate()),
            },
        }
    }

    /// Builds a `Capture` error, classifying the message automatically.
    pub fn capture(message: &str) -> (e: Self)
        ensures
            e matches CameraManError::Capture { kind, message: m }
                && kind == classify_message(message@) && m@ == message@,
    {
        let kind = CaptureErrorKind::classify(message);
        Self::Capture { kind, message: crate::text::owned(message) }
    }

    /// Builds a `Capture` error of an explicit kind.
    pub fn capture_with_kind(kind: CaptureErrorKind, message: &str) -> (e: Self)
        ensures
            e matches CameraManError::Capture { kind: k, message: m } && k == kind && m@
                == message@,
    {
        Self::Capture { kind, message: crate::text::owned(message) }
    }

    /// Wraps this error with the operation that failed.
    pub fn context(self, operation: &str) -> (e: Self)
        ensures
            e matches CameraManError::Context { operation: o, source } && o@ == operation@
                && *source == self,
    {
        Self::Context { operation: crate::text::owned(operation), source: Box::new(self) }
    }

    /// The stable error code; a context wrapper reports its source's code.
    pub fn code(&self) -> (c: ErrorCode)
        ensures
            c == error_code(*self),
        decreases *self,
    {
        match self {
            Self::EmptyInput => ErrorCode::EmptyInput,
            Self::EmptyFrame => ErrorCode::EmptyFrame,
            Self::Capture { kind, .. } => ErrorCode::Capture(*kind),
            Self::InvalidDimensions { .. } => ErrorCode::InvalidDimensions,
            Self::InvalidBufferLength { .. } => ErrorCode::InvalidBufferLength,
            Self::InvalidRowStride { .. } => ErrorCode::InvalidRowStride,
            Self::InvalidMediaContract(_) => ErrorCode::InvalidMediaContract,
            Self::PixelOutOfBounds { .. } => ErrorCode::PixelOutOfBounds,
            Self::BufferTooLarge { .. } => ErrorCode::BufferTooLarge,
            Self::FrameLimitExceeded { .. } => ErrorCode::FrameLimitExceeded,
            Self::Io { .. } => ErrorCode::Io,
            Self::UnsupportedPixelFormat => ErrorCode::UnsupportedPixelFormat,
            Self::VirtualCameraUnavailable(_) => ErrorCode::VirtualCameraUnavailable,
            Self::Context { source, .. } => source.code(),
        }
    }

    /// User-facing cause, determined by the error code.
    pub fn user_message(&self) -> (m: &'static str)
        ensures
            m@ == cause_text(error_code(*self)),
    {
        self.code().profile().1
    }

    /// A concrete next step for a status surface, determined by the code.
    pub fn recovery_message(&self) -> (m: &'static str)
        ensures
            m@ == recovery_text(error_code(*self)),
    {
        self.code().profile().2
    }

    /// `"{operation} failed. {cause} {recovery}"`.
    pub fn actionable_message(&self, operation: &str) -> (m: String)
        ensures
            m@ == operation@ + " failed. "@ + cause_text(error_code(*self)) + " "@ + recovery_text(
                error_code(*self),
            ),
    {
        let mut out: Vec<char> = Vec::new();
        push_str(&mut out, operation);
        push_str(&mut out, " failed. ");
        push_str(&mut out, self.user_message());
        push_str(&mut out, " ");
        push_str(&mut out, self.recovery_message());
        string_from_chars(out.as_slice())
    }

    /// Appends the technical description of this error to `out`.
    fn push_diagnostic(&self, out: &mut Vec<char>)
        ensures
            final(out)@ == old(out)@ + diagnostic_text(*self),
        decreases *self,
    {
        let ghost start = out@;
        match self {
            Self::EmptyInput => push_str(out, "no input frames were provided"),
            Self::EmptyFrame => push_str(out, "frame has no pixels"),
            Self::Capture { kind, message } => {
                push_str(out, "capture error (");
                push_str(out, kind.debug_name());
                push_str(out, "): ");
                push_str(out, message.as_str());
            },
            Self::InvalidDimensions { width, height } => {
                push_str(out, "invalid frame dimensions: ");
                push_decimal(out, *width as u64);
                push_str(out, "x");
                push_decimal(out, *height as u64);
            },
            Self::InvalidBufferLength { expected, actual } => {
                push_str(out, "invalid buffer length: expected ");
                push_decimal(out, *expected as u64);
                push_str(out, " bytes, got ");
                push_decimal(out, *actual as u64);
            },
            Self::InvalidRowStride { minimum, actual } => {
                push_str(out, "invalid row stride: minimum ");
                push_decimal(out, *minimum as u64);
                push_str(out, " bytes, got ");
                push_decimal(out, *actual as u64);
            },
            Self::InvalidMediaContract(reason) => {
                push_str(out, "invalid media contract: ");
                push_str(out, reason);
            },
            Self::PixelOutOfBounds { x, y, width, height } => {
                push_str(out, "pixel (");
                push_decimal(out, *x as u64);
                push_str(out, ", ");
                push_decimal(out, *y as u64);
                push_str(out, ") is outside frame ");
                push_decimal(out, *width as u64);
                push_str(out, "x");
                push_decimal(out, *height as u64);
            },
            Self::BufferTooLarge { bytes } => {
                push_str(out, "frame buffer too large: ");
                push_decimal(out, *bytes);
                push_str(out, " bytes");
            },
            Self::FrameLimitExceeded { bytes, limit } => {
                push_str(out, "frame needs ");
                push_decimal(out, *bytes);
                push_str(out, " bytes, configured limit is ");
                push_decimal(out, *limit);
                push_str(out, " bytes");
            },
            Self::Io { kind, message } => {
                push_str(out, "io error (");
                let name = io_error_kind_text(*kind);
                push_str(out, name.as_str());
                push_str(out, "): ");
                push_str(out, message.as_str());
            },
            Self::UnsupportedPixelFormat => push_str(out, "unsupported pixel format"),
            Self::VirtualCameraUnavailable(reason) => {
                push_str(out, "virtual camera unavailable: ");
                push_str(out, reason);
            },
            Self::Context { operation, source } => {
                push_str(out, operation.as_str());
                push_str(out, ": ");
                source.push_diagnostic(out);
            },
        }
        assert(out@ =~= start + diagnostic_text(*self));
    }

    /// The full technical description, for logs and diagnostics export.
    pub fn diagnostic_message(&self) -> (m: String)
        ensures
            m@ == diagnostic_text(*self),
    {
        let mut out: Vec<char> = Vec::new();
        self.push_diagnostic(&mut out);
        assert(out@ =~= diagnostic_text(*self));
        string_from_chars(out.as_slice())
    }
}

/// Every error code has its own stable text: two different codes never
/// share one.
#[verifier::rlimit(50)]
pub proof fn law_code_texts_distinct(a: ErrorCode, b: ErrorCode)
    requires
        a != b,
    ensures
        code_text(a) != code_text(b),
{
    reveal_strlit("empty_input");
    reveal_strlit("empty_frame");
    reveal_strlit("invalid_dimensions");
    reveal_strlit("invalid_buffer_length");
    reveal_strlit("invalid_row_stride");
    reveal_strlit("invalid_media_contract");
    reveal_strlit("pixel_out_of_bounds");
    reveal_strlit("buffer_too_large");
    reveal_strlit("frame_limit_exceeded");
    reveal_strlit("io");
    reveal_strlit("unsupported_pixel_format");
    reveal_strlit("virtual_camera_unavailable");
    reveal_strlit("capture_timeout");
    reveal_strlit("capture_device_not_found");
    reveal_strlit("capture_disconnected");
    reveal_strlit("capture_permission_denied");
    reveal_strlit("capture_device_busy");
    reveal_strlit("capture_unsupported");
    reveal_strlit("capture_other");
    let ta = code_text(a);
    let tb = code_text(b);
    if ta == tb {
        assert(ta.len() == tb.len());
        assert(ta[0] == tb[0]);
        assert(ta[6] == tb[6]);
        assert(ta[8] == tb[8]);
    }
}

} // verus!

