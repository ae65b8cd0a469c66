//! Validated pixel frames, borrowed stride-aware views and the memory policy
//! that bounds one frame.
use std::sync::Arc;
use vstd::prelude::*;

use crate::error::CameraManError;
use crate::media_contract::{contract_fits, geometry_mismatch_reason, FrameContract};
use crate::media_time::{
    monotonic_time_nanos, CaptureTimestamps, MonotonicTimestampNanos, WallTimestampNanos,
};
use crate::text::{owned, parse_u64, str_chars, trim_bounds};

verus! {

pub const FRAME_MEMORY_LIMIT_ENV: &'static str = "CAMERAMAN_MAX_FRAME_BYTES";

pub const MIN_DEFAULT_FRAME_BYTES: u64 = 67108864;

pub const MAX_DEFAULT_FRAME_BYTES: u64 = 1073741824;

pub const FRAME_MEMORY_FRACTION: u64 = 16;

/// Maximum memory allowed for one tightly packed frame.
///
/// The process policy ([`default_frame_limits`]) is one sixteenth of
/// physical memory, clamped to 64 MiB..=1 GiB, unless
/// `CAMERAMAN_MAX_FRAME_BYTES` overrides it; `Frame::new_checked_with_limits`
/// accepts an explicit policy.
#[derive(Debug, Clone, Copy, PartialEq, Eq)]
pub struct FrameLimits {
    max_frame_bytes: u64,
}

/// The budget a policy derives from the physical memory size.
pub open spec fn memory_budget(physical_memory_bytes: u64) -> u64 {
    let suggested = physical_memory_bytes / FRAME_MEMORY_FRACTION;
    if suggested < MIN_DEFAULT_FRAME_BYTES {
        MIN_DEFAULT_FRAME_BYTES
    } else if suggested > MAX_DEFAULT_FRAME_BYTES {
        MAX_DEFAULT_FRAME_BYTES
    } else {
        suggested
    }
}

impl FrameLimits {
    /// The byte budget of this policy.
    pub closed spec fn limit(self) -> u64 {
        self.max_frame_bytes
    }

    /// An explicit budget; a zero budget is raised to one byte.
    pub fn new(max_frame_bytes: u64) -> (l: Self)
        ensures
            l.limit() == if max_frame_bytes == 0 { 1 } else { max_frame_bytes },
    {
        FrameLimits { max_frame_bytes: if max_frame_bytes == 0 { 1 } else { max_frame_bytes } }
    }

    /// One sixteenth of physical memory, clamped to 64 MiB..=1 GiB.
    pub fn for_physical_memory(physical_memory_bytes: u64) -> (l: Self)
        ensures
            l.limit() == memory_budget(physical_memory_bytes),
    {
        let suggested = physical_memory_bytes / FRAME_MEMORY_FRACTION;
        let max_frame_bytes = if suggested < MIN_DEFAULT_FRAME_BYTES {
            MIN_DEFAULT_FRAME_BYTES
        } else if suggested > MAX_DEFAULT_FRAME_BYTES {
            MAX_DEFAULT_FRAME_BYTES
        } else {
            suggested
        };
        FrameLimits { max_frame_bytes }
    }

    /// The byte budget.
    pub fn max_frame_bytes(self) -> (b: u64)
        ensures
            b == self.limit(),
    {
        self.max_frame_bytes
    }
}

/// Parses a decimal `u64` as `str::parse::<u64>` does.
pub fn parse_u64_str(value: &str) -> (r: Option<u64>)
    ensures
        r == parse_u64(value@),
{
    crate::text::parse_u64_chars(str_chars(value).as_slice())
}

/// The override variable's text as characters, when it is set.
pub open spec fn override_chars(override_value: Option<&str>) -> Option<Seq<char>> {
    match override_value {
        Some(v) => Some(v@),
        None => None,
    }
}

/// The process policy's byte budget from its two inputs: a positive byte
/// count in the override variable wins; otherwise the physical memory size
/// decides; without either the 1 GiB ceiling applies.
pub open spec fn policy_bytes(override_value: Option<Seq<char>>, physical_memory_bytes: Option<u64>)
    -> u64 {
    let parsed = match override_value {
        Some(v) => parse_u64(v),
        None => None,
    };
    match parsed {
        Some(bytes) if bytes > 0 => bytes,
        _ => match physical_memory_bytes {
            Some(memory) => memory_budget(memory),
            None => MAX_DEFAULT_FRAME_BYTES,
        },
    }
}

/// The process policy as a value.
pub closed spec fn process_policy(
    override_value: Option<Seq<char>>,
    physical_memory_bytes: Option<u64>,
) -> FrameLimits {
    FrameLimits { max_frame_bytes: policy_bytes(override_value, physical_memory_bytes) }
}

/// The policy's budget is the one its inputs decide, never zero.
pub proof fn law_process_policy_limit(
    override_value: Option<Seq<char>>,
    physical_memory_bytes: Option<u64>,
)
    ensures
        process_policy(override_value, physical_memory_bytes).limit() == policy_bytes(
            override_value,
            physical_memory_bytes,
        ),
        policy_bytes(override_value, physical_memory_bytes) >= 1,
{
}

/// The frame memory policy of a process whose override variable holds
/// `override_value` and whose machine reports `physical_memory_bytes`.
/// The application reads both once and hands the same values to every call,
/// so one process keeps one policy.
pub fn default_frame_limits(override_value: Option<&str>, physical_memory_bytes: Option<u64>) -> (l:
    FrameLimits)
    ensures
        l == process_policy(override_chars(override_value), physical_memory_bytes),
        l.limit() == policy_bytes(override_chars(override_value), physical_memory_bytes),
{
    if let Some(value) = override_value {
        if let Some(bytes) = parse_u64_str(value) {
            if bytes > 0 {
                return FrameLimits::new(bytes);
            }
        }
    }
    match physical_memory_bytes {
        Some(memory) => FrameLimits::for_physical_memory(memory),
        None => FrameLimits::new(MAX_DEFAULT_FRAME_BYTES),
    }
}

/// Physical memory in bytes from the system's page count and page size, as
/// `sysconf` reports them; `None` when either is not positive or their
/// product does not fit in 64 bits.
pub fn physical_memory_from_pages(pages: i64, page_size: i64) -> (r: Option<u64>)
    ensures
        r == if pages > 0 && page_size > 0 && pages * page_size <= u64::MAX {
            Some((pages * page_size) as u64)
        } else {
            None
        },
{
    if pages <= 0 || page_size <= 0 {
        return None;
    }
    (pages as u64).checked_mul(page_size as u64)
}

/// Pixel memory layout used by a [`Frame`].
#[derive(Debug, Clone, Copy, PartialEq, Eq, Hash, Structural)]
pub enum PixelFormat {
    /// Four tightly packed bytes per pixel in blue, green, red, alpha order.
    Bgra8,
}

pub open spec fn bytes_per_pixel_of(format: PixelFormat) -> nat {
    match format {
        PixelFormat::Bgra8 => 4,
    }
}

impl PixelFormat {
    /// Number of tightly packed bytes occupied by one pixel.
    pub fn bytes_per_pixel(self) -> (n: usize)
        ensures
            n == bytes_per_pixel_of(self),
    {
        match self {
            Self::Bgra8 => 4,
        }
    }
}

/// Source identity and capture timing carried separately from pixel storage.
#[derive(Debug, Clone, PartialEq, Eq)]
pub struct FrameMetadata {
    pub source_id: String,
    pub sequence: u64,
    pub timestamps: CaptureTimestamps,
}

/// Age of capture `m` at clock reading `now`, zero for a reading before it.
pub open spec fn capture_age(m: FrameMetadata, now: u64) -> u64 {
    if now >= m.timestamps.monotonic.0 {
        (now - m.timestamps.monotonic.0) as u64
    } else {
        0
    }
}

impl FrameMetadata {
    /// Metadata stamped with the current time.
    pub fn new(source_id: &str, sequence: u64) -> (m: Self)
        ensures
            m.source_id@ == source_id@,
            m.sequence == sequence,
    {
        FrameMetadata { source_id: owned(source_id), sequence, timestamps: CaptureTimestamps::now() }
    }

    /// Metadata with explicit timestamps.
    pub fn with_timestamps(source_id: &str, sequence: u64, timestamps: CaptureTimestamps) -> (m:
        Self)
        ensures
            m.source_id@ == source_id@,
            m.sequence == sequence,
            m.timestamps == timestamps,
    {
        FrameMetadata { source_id: owned(source_id), sequence, timestamps }
    }

    /// Age of this capture at clock reading `now_nanos`, saturating at zero
    /// for clock skew.
    pub fn age_at(&self, now_nanos: u64) -> (age: u64)
        ensures
            age == if now_nanos >= self.timestamps.monotonic.0 {
                now_nanos - self.timestamps.monotonic.0
            } else {
                0
            },
    {
        Self::age_from_monotonic_nanos(now_nanos, self.timestamps.monotonic.0)
    }

    /// Current age of this capture in nanoseconds, saturating for clock skew:
    /// its age at the clock reading taken by the call.
    pub fn age(&self) -> (age: u64)
        ensures
            exists|now: u64| age == #[trigger] capture_age(*self, now),
    {
        let now = monotonic_time_nanos();
        let age = self.age_at(now);
        assert(age == capture_age(*self, now));
        age
    }

    pub fn monotonic_timestamp(&self) -> (t: MonotonicTimestampNanos)
        ensures
            t == self.timestamps.monotonic,
    {
        self.timestamps.monotonic
    }

    pub fn wall_timestamp(&self) -> (t: WallTimestampNanos)
        ensures
            t == self.timestamps.wall,
    {
        self.timestamps.wall
    }

    /// `now - timestamp`, saturating at zero.
    pub fn age_from_monotonic_nanos(now_nanos: u64, timestamp_nanos: u64) -> (age: u64)
        ensures
            age == if now_nanos >= timestamp_nanos { now_nanos - timestamp_nanos } else { 0 },
    {
        now_nanos.saturating_sub(timestamp_nanos)
    }
}

// ---------------------------------------------------------------------------
// Byte accounting
// ---------------------------------------------------------------------------

/// Exact byte count of a tightly packed frame.
pub open spec fn frame_bytes(width: u32, height: u32, bytes_per_pixel: nat) -> int {
    width * height * bytes_per_pixel
}

/// Byte count of a frame when it fits in 64 bits.
pub fn checked_frame_byte_len(width: u32, height: u32, bytes_per_pixel: usize) -> (r: Option<u64>)
    ensures
        r == if frame_bytes(width, height, bytes_per_pixel as nat) <= u64::MAX {
            Some(frame_bytes(width, height, bytes_per_pixel as nat) as u64)
        } else {
            None
        },
{
    assert((width as int) * (height as int) <= 0xffff_ffff * 0xffff_ffff) by (nonlinear_arith)
        requires
            width <= 0xffff_ffff,
            height <= 0xffff_ffff,
    ;
    let area: u64 = (width as u64) * (height as u64);
    assert(area == width * height) by (nonlinear_arith)
        requires
            area == (width as u64) * (height as u64),
    ;
    area.checked_mul(bytes_per_pixel as u64)
}

/// The outcome of sizing a frame under a memory policy.
pub open spec fn byte_len_result(
    width: u32,
    height: u32,
    pixel_format: PixelFormat,
    limits: FrameLimits,
) -> Result<usize, CameraManError> {
    let bytes = frame_bytes(width, height, bytes_per_pixel_of(pixel_format));
    if width == 0 || height == 0 {
        Err(CameraManError::InvalidDimensions { width, height })
    } else if bytes > u64::MAX {
        Err(CameraManError::BufferTooLarge { bytes: u64::MAX })
    } else if bytes > limits.limit() {
        Err(CameraManError::FrameLimitExceeded { bytes: bytes as u64, limit: limits.limit() })
    } else if bytes > usize::MAX {
        Err(CameraManError::BufferTooLarge { bytes: bytes as u64 })
    } else {
        Ok(bytes as usize)
    }
}

/// Sizes a tightly packed frame and checks it against the memory policy.
pub fn byte_len(width: u32, height: u32, pixel_format: PixelFormat, limits: FrameLimits) -> (r:
    Result<usize, CameraManError>)
    ensures
        r == byte_len_result(width, height, pixel_format, limits),
{
    if width == 0 || height == 0 {
        return Err(CameraManError::InvalidDimensions { width, height });
    }
    let bytes = match checked_frame_byte_len(width, height, pixel_format.bytes_per_pixel()) {
        Some(bytes) => bytes,
        None => {
            return Err(CameraManError::BufferTooLarge { bytes: u64::MAX });
        },
    };
    if bytes > limits.max_frame_bytes() {
        return Err(CameraManError::FrameLimitExceeded { bytes, limit: limits.max_frame_bytes() });
    }
    if bytes > usize::MAX as u64 {
        return Err(CameraManError::BufferTooLarge { bytes });
    }
    Ok(bytes as usize)
}

// ---------------------------------------------------------------------------
// Owned frames
// ---------------------------------------------------------------------------

/// Validated, tightly packed pixel data with copy-on-write clone semantics.
///
/// A clone shares the pixel allocation; writing through one handle first
/// detaches it when another handle still shares the pixels.
#[derive(Debug, Clone, PartialEq, Eq)]
pub struct Frame {
    width: u32,
    height: u32,
    pixel_format: PixelFormat,
    contract: FrameContract,
    data: Arc<Vec<u8>>,
}

/// `Arc::clone`: a second handle on the same pixel allocation, so it holds
/// the same bytes.
#[verifier::external_body]
fn share_pixels(pixels: &Arc<Vec<u8>>) -> (r: Arc<Vec<u8>>)
    ensures
        r@ == pixels@,
{
    Arc::clone(pixels)
}

/// `Arc::make_mut`: mutable access to the pixels behind this handle, which
/// start as the handle's bytes (copied first when another handle shares
/// them); what is written through it is what the handle holds afterwards.
#[verifier::external_body]
fn unique_pixels(pixels: &mut Arc<Vec<u8>>) -> (v: &mut Vec<u8>)
    ensures
        v@ == old(pixels)@,
        final(pixels)@ == final(v)@,
{
    Arc::make_mut(pixels)
}

/// `Arc::ptr_eq`: whether two handles point to one allocation. Which
/// allocation a handle has is not stated; two handles on one allocation
/// hold the same bytes.
#[verifier::external_body]
fn same_allocation(a: &Arc<Vec<u8>>, b: &Arc<Vec<u8>>) -> (r: bool)
    ensures
        r ==> a@ == b@,
{
    Arc::ptr_eq(a, b)
}

/// Mathematical content of a [`Frame`].
pub struct FrameModel {
    pub width: u32,
    pub height: u32,
    pub pixel_format: PixelFormat,
    pub contract: FrameContract,
    pub data: Seq<u8>,
}

impl View for Frame {
    type V = FrameModel;

    closed spec fn view(&self) -> FrameModel {
        FrameModel {
            width: self.width,
            height: self.height,
            pixel_format: self.pixel_format,
            contract: self.contract,
            data: self.data@,
        }
    }
}

/// Non-zero dimensions, exactly one tightly packed pixel buffer, and a
/// contract of the same geometry.
pub open spec fn frame_model_wf(m: FrameModel) -> bool {
    &&& m.width > 0
    &&& m.height > 0
    &&& m.data.len() == frame_bytes(m.width, m.height, bytes_per_pixel_of(m.pixel_format))
    &&& contract_fits(m.contract, m.width, m.height)
}

/// Byte offset of pixel `(x, y)` in a tightly packed frame.
pub open spec fn pixel_index(m: FrameModel, x: u32, y: u32) -> int {
    y * (m.width * bytes_per_pixel_of(m.pixel_format)) + x * bytes_per_pixel_of(m.pixel_format)
}

/// `(x, y)` lies inside the frame.
pub open spec fn in_frame(m: FrameModel, x: u32, y: u32) -> bool {
    x < m.width && y < m.height
}

/// `n` bytes repeating one BGRA pixel.
pub open spec fn solid_pixels(n: nat, bgra: [u8; 4]) -> Seq<u8> {
    Seq::new(n, |i: int| bgra@[i % 4])
}

/// Every pixel of `(x, y)` with `x < w` and `y < h` starts inside `w * h` cells.
proof fn lemma_pixel_in_bounds(w: int, h: int, bpp: int, x: int, y: int)
    requires
        0 <= x < w,
        0 <= y < h,
        bpp > 0,
    ensures
        y * (w * bpp) + x * bpp + bpp <= w * h * bpp,
        0 <= y * (w * bpp) + x * bpp,
        w * bpp <= w * h * bpp,
        y * (w * bpp) <= (h - 1) * (w * bpp),
{
    assert(y * (w * bpp) + x * bpp + bpp <= w * h * bpp) by (nonlinear_arith)
        requires
            0 <= x < w,
            0 <= y < h,
            bpp > 0,
    ;
    assert(0 <= y * (w * bpp) + x * bpp) by (nonlinear_arith)
        requires
            0 <= x,
            0 <= y,
            w > 0,
            bpp > 0,
    ;
    assert(w * bpp <= w * h * bpp) by (nonlinear_arith)
        requires
            h >= 1,
            w > 0,
            bpp > 0,
    ;
    assert(y * (w * bpp) <= (h - 1) * (w * bpp)) by (nonlinear_arith)
        requires
            0 <= y < h,
            w > 0,
            bpp > 0,
    ;
}

/// The outcome of validating owned pixel data.
pub open spec fn new_frame_result_ok(
    r: Result<Frame, CameraManError>,
    width: u32,
    height: u32,
    pixel_format: PixelFormat,
    data: Seq<u8>,
    limits: FrameLimits,
) -> bool {
    match byte_len_result(width, height, pixel_format, limits) {
        Err(e) => r == Err::<Frame, CameraManError>(e),
        Ok(expected) => if data.len() != expected {
            r == Err::<Frame, CameraManError>(
                CameraManError::InvalidBufferLength { expected, actual: data.len() as usize },
            )
        } else {
            r matches Ok(f) && f@ == (FrameModel {
                width,
                height,
                pixel_format,
                contract: FrameContract {
                    width,
                    height,
                    colorimetry: crate::media_contract::Colorimetry::Bt709FullOpaque,
                },
                data,
            })
        },
    }
}

impl Frame {
    /// Non-zero dimensions with exactly one tightly packed pixel buffer.
    pub open spec fn wf(&self) -> bool {
        frame_model_wf(self@)
    }

    /// Validates dimensions, byte length and the memory policy of the
    /// process, which [`default_frame_limits`] derives from the override
    /// variable's value and the physical memory size.
    pub fn new_checked(
        width: u32,
        height: u32,
        pixel_format: PixelFormat,
        data: Vec<u8>,
        override_value: Option<&str>,
        physical_memory_bytes: Option<u64>,
    ) -> (r: Result<Self, CameraManError>)
        ensures
            new_frame_result_ok(
                r,
                width,
                height,
                pixel_format,
                data@,
                process_policy(override_chars(override_value), physical_memory_bytes),
            ),
            r matches Ok(f) ==> f.wf(),
    {
        let limits = default_frame_limits(override_value, physical_memory_bytes);
        Self::new_checked_with_limits(width, height, pixel_format, data, limits)
    }

    /// Validates a frame against an explicit memory policy.
    pub fn new_checked_with_limits(
        width: u32,
        height: u32,
        pixel_format: PixelFormat,
        data: Vec<u8>,
        limits: FrameLimits,
    ) -> (r: Result<Self, CameraManError>)
        ensures
            new_frame_result_ok(r, width, height, pixel_format, data@, limits),
            r matches Ok(f) ==> f.wf(),
    {
        if width == 0 || height == 0 {
            return Err(CameraManError::InvalidDimensions { width, height });
        }
        let expected = match byte_len(width, height, pixel_format, limits) {
            Ok(expected) => expected,
            Err(e) => {
                return Err(e);
            },
        };
        let actual = data.len();
        if actual != expected {
            return Err(CameraManError::InvalidBufferLength { expected, actual });
        }
        let contract = FrameContract::canonical_bgra(width, height);
        Ok(Frame { width, height, pixel_format, contract, data: Arc::new(data) })
    }

    /// Validates a frame that carries an explicit contract.
    pub fn new_checked_with_contract(
        width: u32,
        height: u32,
        pixel_format: PixelFormat,
        contract: FrameContract,
        data: Vec<u8>,
        override_value: Option<&str>,
        physical_memory_bytes: Option<u64>,
    ) -> (r: Result<Self, CameraManError>)
        ensures
            !contract_fits(contract, width, height) ==> (r matches Err(
                CameraManError::InvalidMediaContract(reason),
            ) && reason@ == geometry_mismatch_reason()),
            contract_fits(contract, width, height) ==> match byte_len_result(
                width,
                height,
                pixel_format,
                process_policy(override_chars(override_value), physical_memory_bytes),
            ) {
                Err(e) => r == Err::<Frame, CameraManError>(e),
                Ok(expected) => if data@.len() != expected {
                    r == Err::<Frame, CameraManError>(
                        CameraManError::InvalidBufferLength {
                            expected,
                            actual: data@.len() as usize,
                        },
                    )
                } else {
                    r matches Ok(f) && f@ == (FrameModel {
                        width,
                        height,
                        pixel_format,
                        contract,
                        data: data@,
                    })
                },
            },
            r matches Ok(f) ==> f.wf(),
    {
        match contract.validate(width, height) {
            Ok(()) => {},
            Err(e) => {
                return Err(e);
            },
        }
        let mut frame = match Self::new_checked(
            width,
            height,
            pixel_format,
            data,
            override_value,
            physical_memory_bytes,
        ) {
            Ok(frame) => frame,
            Err(e) => {
                return Err(e);
            },
        };
        frame.contract = contract;
        Ok(frame)
    }

    /// Allocates a tightly packed solid BGRA frame under the memory policy of
    /// the process (see [`default_frame_limits`]).
    pub fn solid_bgra(
        width: u32,
        height: u32,
        bgra: [u8; 4],
        override_value: Option<&str>,
        physical_memory_bytes: Option<u64>,
    ) -> (r: Result<Self, CameraManError>)
        ensures
            match byte_len_result(
                width,
                height,
                PixelFormat::Bgra8,
                process_policy(override_chars(override_value), physical_memory_bytes),
            ) {
                Err(e) => r == Err::<Frame, CameraManError>(e),
                Ok(n) => r matches Ok(f) && f@ == (FrameModel {
                    width,
                    height,
                    pixel_format: PixelFormat::Bgra8,
                    contract: FrameContract {
                        width,
                        height,
                        colorimetry: crate::media_contract::Colorimetry::Bt709FullOpaque,
                    },
                    data: solid_pixels(n as nat, bgra),
                }),
            },
            r matches Ok(f) ==> f.wf(),
    {
        let limits = default_frame_limits(override_value, physical_memory_bytes);
        Self::solid_bgra_with_limits(width, height, bgra, limits)
    }

    /// Allocates a solid BGRA frame under explicit limits.
    pub fn solid_bgra_with_limits(width: u32, height: u32, bgra: [u8; 4], limits: FrameLimits) -> (r:
        Result<Self, CameraManError>)
        ensures
            match byte_len_result(width, height, PixelFormat::Bgra8, limits) {
                Err(e) => r == Err::<Frame, CameraManError>(e),
                Ok(n) => r matches Ok(f) && f@ == (FrameModel {
                    width,
                    height,
                    pixel_format: PixelFormat::Bgra8,
                    contract: FrameContract {
                        width,
                        height,
                        colorimetry: crate::media_contract::Colorimetry::Bt709FullOpaque,
                    },
                    data: solid_pixels(n as nat, bgra),
                }),
            },
            r matches Ok(f) ==> f.wf(),
    {
        let len = match byte_len(width, height, PixelFormat::Bgra8, limits) {
            Ok(len) => len,
            Err(e) => {
                return Err(e);
            },
        };
        let mut data: Vec<u8> = Vec::with_capacity(len);
        let mut i: usize = 0;
        while i < len
            invariant
                i <= len,
                data@ == solid_pixels(i as nat, bgra),
            decreases len - i,
        {
            data.push(bgra[i % 4]);
            i = i + 1;
            assert(data@ =~= solid_pixels(i as nat, bgra));
        }
        Ok(Frame {
            width,
            height,
            pixel_format: PixelFormat::Bgra8,
            contract: FrameContract::canonical_bgra(width, height),
            data: Arc::new(data),
        })
    }

    pub fn width(&self) -> (w: u32)
        ensures
            w == self@.width,
    {
        self.width
    }

    pub fn height(&self) -> (h: u32)
        ensures
            h == self@.height,
    {
        self.height
    }

    pub fn pixel_format(&self) -> (f: PixelFormat)
        ensures
            f == self@.pixel_format,
    {
        self.pixel_format
    }

    pub fn contract(&self) -> (c: FrameContract)
        ensures
            c == self@.contract,
    {
        self.contract
    }

    /// Replaces the contract when it describes this frame's geometry.
    pub fn set_contract(&mut self, contract: FrameContract) -> (r: Result<(), CameraManError>)
        ensures
            contract_fits(contract, old(self)@.width, old(self)@.height) ==> r is Ok && final(self)@
                == (FrameModel { contract, ..old(self)@ }),
            !contract_fits(contract, old(self)@.width, old(self)@.height) ==> (r matches Err(
                CameraManError::InvalidMediaContract(reason),
            ) && reason@ == geometry_mismatch_reason() && final(self)@ == old(self)@),
            old(self).wf() ==> final(self).wf(),
    {
        match contract.validate(self.width, self.height) {
            Ok(()) => {},
            Err(e) => {
                return Err(e);
            },
        }
        self.contract = contract;
        Ok(())
    }

    /// Immutable tightly packed pixel bytes.
    pub fn data(&self) -> (d: &[u8])
        ensures
            d@ == self@.data,
    {
        self.data.as_slice()
    }

    /// A handle on the same geometry, contract and pixels; the pixel
    /// allocation is shared until either handle writes.
    pub fn duplicate(&self) -> (f: Self)
        ensures
            f@ == self@,
    {
        let data = share_pixels(&self.data);
        Frame {
            width: self.width,
            height: self.height,
            pixel_format: self.pixel_format,
            contract: self.contract,
            data,
        }
    }

    /// Mutable pixel bytes.
    pub fn data_mut(&mut self) -> (d: &mut [u8])
        ensures
            d@ == old(self)@.data,
            final(self)@ == (FrameModel { data: final(d)@, ..old(self)@ }),
    {
        unique_pixels(&mut self.data).as_mut_slice()
    }

    /// Whether this frame and `other` still share one pixel allocation, as a
    /// clone does until either is written. Sharing frames hold the same bytes.
    pub fn shares_pixels_with(&self, other: &Frame) -> (b: bool)
        ensures
            b ==> self@.data == other@.data,
    {
        same_allocation(&self.data, &other.data)
    }

    /// Byte offset of pixel `(x, y)`, or `None` outside the frame.
    pub fn pixel_offset(&self, x: u32, y: u32) -> (r: Option<usize>)
        requires
            self.wf(),
        ensures
            in_frame(self@, x, y) ==> r == Some(pixel_index(self@, x, y) as usize),
            !in_frame(self@, x, y) ==> r is None,
            in_frame(self@, x, y) ==> 0 <= pixel_index(self@, x, y) && pixel_index(self@, x, y)
                + bytes_per_pixel_of(self@.pixel_format) <= self@.data.len(),
    {
        if x >= self.width || y >= self.height {
            return None;
        }
        let bpp = self.pixel_format.bytes_per_pixel();
        let len = self.data.len();
        proof {
            lemma_pixel_in_bounds(
                self.width as int,
                self.height as int,
                bpp as int,
                x as int,
                y as int,
            );
        }
        let stride = self.width as usize * bpp;
        Some(y as usize * stride + x as usize * bpp)
    }

    /// The BGRA bytes of pixel `(x, y)`, or `None` outside the frame.
    pub fn bgra_at(&self, x: u32, y: u32) -> (r: Option<[u8; 4]>)
        requires
            self.wf(),
        ensures
            !in_frame(self@, x, y) ==> r is None,
            in_frame(self@, x, y) ==> (r matches Some(p) && p@ == self@.data.subrange(
                pixel_index(self@, x, y),
                pixel_index(self@, x, y) + 4,
            )),
    {
        let offset = match self.pixel_offset(x, y) {
            Some(offset) => offset,
            None => {
                return None;
            },
        };
        let len = self.data.len();
        let p = [self.data[offset], self.data[offset + 1], self.data[offset + 2], self.data[offset
            + 3]];
        assert(p@ =~= self@.data.subrange(offset as int, offset + 4));
        Some(p)
    }

    /// Writes a pixel, or reports the coordinates when out of bounds.
    pub fn try_set_bgra(&mut self, x: u32, y: u32, bgra: [u8; 4]) -> (r: Result<(), CameraManError>)
        requires
            old(self).wf(),
        ensures
            final(self).wf(),
            !in_frame(old(self)@, x, y) ==> r == Err::<(), CameraManError>(
                CameraManError::PixelOutOfBounds {
                    x,
                    y,
                    width: old(self)@.width,
                    height: old(self)@.height,
                },
            ) && final(self)@ == old(self)@,
            in_frame(old(self)@, x, y) ==> r is Ok && final(self)@ == (FrameModel {
                data: old(self)@.data.subrange(0, pixel_index(old(self)@, x, y)) + bgra@
                    + old(self)@.data.subrange(
                    pixel_index(old(self)@, x, y) + 4,
                    old(self)@.data.len() as int,
                ),
                ..old(self)@
            }),
    {
        let offset = match self.pixel_offset(x, y) {
            Some(offset) => offset,
            None => {
                return Err(
                    CameraManError::PixelOutOfBounds { x, y, width: self.width, height: self.height },
                );
            },
        };
        let ghost before = self.data@;
        let pixels = unique_pixels(&mut self.data);
        let len = pixels.len();
        pixels.set(offset, bgra[0]);
        pixels.set(offset + 1, bgra[1]);
        pixels.set(offset + 2, bgra[2]);
        pixels.set(offset + 3, bgra[3]);
        assert(pixels@ =~= before.subrange(0, offset as int) + bgra@ + before.subrange(
            offset + 4,
            before.len() as int,
        ));
        Ok(())
    }

    /// Writes a pixel, ignoring coordinates outside the frame.
    pub fn set_bgra(&mut self, x: u32, y: u32, bgra: [u8; 4])
        requires
            old(self).wf(),
        ensures
            final(self).wf(),
            !in_frame(old(self)@, x, y) ==> final(self)@ == old(self)@,
            in_frame(old(self)@, x, y) ==> final(self)@ == (FrameModel {
                data: old(self)@.data.subrange(0, pixel_index(old(self)@, x, y)) + bgra@
                    + old(self)@.data.subrange(
                    pixel_index(old(self)@, x, y) + 4,
                    old(self)@.data.len() as int,
                ),
                ..old(self)@
            }),
    {
        let _ = self.try_set_bgra(x, y, bgra);
    }
}

// ---------------------------------------------------------------------------
// Borrowed views
// ---------------------------------------------------------------------------

/// Borrowed pixel view that can represent padded source rows without copying.
#[derive(Debug, Clone, Copy, PartialEq, Eq)]
pub struct FrameView<'a> {
    width: u32,
    height: u32,
    pixel_format: PixelFormat,
    contract: FrameContract,
    row_stride: usize,
    active_row_bytes: usize,
    data: &'a [u8],
}

/// Mathematical content of a [`FrameView`].
pub struct FrameViewModel {
    pub width: u32,
    pub height: u32,
    pub pixel_format: PixelFormat,
    pub contract: FrameContract,
    pub row_stride: usize,
    pub active_row_bytes: usize,
    pub data: Seq<u8>,
}

impl<'a> View for FrameView<'a> {
    type V = FrameViewModel;

    closed spec fn view(&self) -> FrameViewModel {
        FrameViewModel {
            width: self.width,
            height: self.height,
            pixel_format: self.pixel_format,
            contract: self.contract,
            row_stride: self.row_stride,
            active_row_bytes: self.active_row_bytes,
            data: self.data@,
        }
    }
}

/// Non-zero dimensions, rows of `width * bpp` active bytes at least that far
/// apart, every row readable, and a contract of the view's geometry.
pub open spec fn view_model_wf(m: FrameViewModel) -> bool {
    &&& m.width > 0
    &&& m.height > 0
    &&& m.active_row_bytes == m.width * bytes_per_pixel_of(m.pixel_format)
    &&& m.row_stride >= m.active_row_bytes
    &&& (m.height - 1) * m.row_stride + m.active_row_bytes <= m.data.len()
    &&& contract_fits(m.contract, m.width, m.height)
}

/// Active bytes of row `y`, without trailing padding.
pub open spec fn view_row(m: FrameViewModel, y: int) -> Seq<u8> {
    m.data.subrange(y * m.row_stride, y * m.row_stride + m.active_row_bytes)
}

/// The first `rows` rows of a view, tightly packed.
pub open spec fn packed_rows(m: FrameViewModel, rows: nat) -> Seq<u8>
    decreases rows,
{
    if rows == 0 {
        Seq::empty()
    } else {
        packed_rows(m, (rows - 1) as nat) + view_row(m, rows - 1)
    }
}

/// The check a borrowed view passes before it is accepted.
pub open spec fn view_check(
    width: u32,
    height: u32,
    pixel_format: PixelFormat,
    row_stride: usize,
    data_len: nat,
) -> Result<(), CameraManError> {
    let active = width * bytes_per_pixel_of(pixel_format);
    let required = (height - 1) * row_stride + active;
    if width == 0 || height == 0 {
        Err(CameraManError::InvalidDimensions { width, height })
    } else if active > usize::MAX {
        Err(CameraManError::BufferTooLarge { bytes: active as u64 })
    } else if row_stride < active {
        Err(CameraManError::InvalidRowStride { minimum: active as usize, actual: row_stride })
    } else if required > usize::MAX {
        Err(CameraManError::BufferTooLarge { bytes: u64::MAX })
    } else if data_len < required {
        Err(
            CameraManError::InvalidBufferLength {
                expected: required as usize,
                actual: data_len as usize,
            },
        )
    } else {
        Ok(())
    }
}

pub proof fn lemma_row_in_view(m: FrameViewModel, y: int)
    requires
        view_model_wf(m),
        0 <= y < m.height,
    ensures
        0 <= y * m.row_stride,
        y * m.row_stride + m.active_row_bytes <= m.data.len(),
{
    assert(0 <= y * m.row_stride <= (m.height - 1) * m.row_stride) by (nonlinear_arith)
        requires
            0 <= y < m.height,
            m.row_stride >= 0,
    ;
}

proof fn lemma_packed_rows_len(m: FrameViewModel, rows: nat)
    requires
        view_model_wf(m),
        rows <= m.height,
    ensures
        packed_rows(m, rows).len() == rows * m.active_row_bytes,
    decreases rows,
{
    if rows > 0 {
        lemma_packed_rows_len(m, (rows - 1) as nat);
        lemma_row_in_view(m, rows - 1);
        assert(view_row(m, rows - 1).len() == m.active_row_bytes);
        assert(packed_rows(m, rows) == packed_rows(m, (rows - 1) as nat) + view_row(m, rows - 1));
        let a = m.active_row_bytes as int;
        let r = rows as int;
        assert(r * a == (r - 1) * a + a) by (nonlinear_arith);
        assert(packed_rows(m, rows).len() == (r - 1) * a + a);
    } else {
        assert(packed_rows(m, rows).len() == 0);
        assert(rows * m.active_row_bytes == 0);
    }
}

impl<'a> FrameView<'a> {
    pub open spec fn wf(&self) -> bool {
        view_model_wf(self@)
    }

    /// Validates dimensions, stride and accessible row bytes without copying.
    /// Extra bytes at the end of each row are padding.
    pub fn new_checked(
        width: u32,
        height: u32,
        pixel_format: PixelFormat,
        row_stride: usize,
        data: &'a [u8],
    ) -> (r: Result<Self, CameraManError>)
        ensures
            match view_check(width, height, pixel_format, row_stride, data@.len()) {
                Err(e) => r == Err::<FrameView<'a>, CameraManError>(e),
                Ok(()) => r matches Ok(v) && v@ == (FrameViewModel {
                    width,
                    height,
                    pixel_format,
                    contract: FrameContract {
                        width,
                        height,
                        colorimetry: crate::media_contract::Colorimetry::Bt709FullOpaque,
                    },
                    row_stride,
                    active_row_bytes: (width * bytes_per_pixel_of(pixel_format)) as usize,
                    data: data@,
                }),
            },
            r matches Ok(v) ==> v.wf(),
    {
        if width == 0 || height == 0 {
            return Err(CameraManError::InvalidDimensions { width, height });
        }
        let bpp = pixel_format.bytes_per_pixel();
        assert((width as int) * (bpp as int) <= 0xffff_ffff * 4) by (nonlinear_arith)
            requires
                width <= 0xffff_ffff,
                bpp == 4,
        ;
        let active_row_bytes_u64: u64 = (width as u64) * (bpp as u64);
        if active_row_bytes_u64 > usize::MAX as u64 {
            return Err(CameraManError::BufferTooLarge { bytes: active_row_bytes_u64 });
        }
        let active_row_bytes = active_row_bytes_u64 as usize;
        if row_stride < active_row_bytes {
            return Err(
                CameraManError::InvalidRowStride { minimum: active_row_bytes, actual: row_stride },
            );
        }
        let rows_before_last = (height - 1) as usize;
        let required = match rows_before_last.checked_mul(row_stride) {
            Some(prefix) => match prefix.checked_add(active_row_bytes) {
                Some(required) => required,
                None => {
                    return Err(CameraManError::BufferTooLarge { bytes: u64::MAX });
                },
            },
            None => {
                proof {
                    assert((height - 1) * row_stride + active_row_bytes > usize::MAX)
                        by (nonlinear_arith)
                        requires
                            (height - 1) * row_stride > usize::MAX,
                            active_row_bytes >= 0,
                    ;
                }
                return Err(CameraManError::BufferTooLarge { bytes: u64::MAX });
            },
        };
        if data.len() < required {
            return Err(
                CameraManError::InvalidBufferLength { expected: required, actual: data.len() },
            );
        }
        Ok(FrameView {
            width,
            height,
            pixel_format,
            contract: FrameContract::canonical_bgra(width, height),
            row_stride,
            active_row_bytes,
            data,
        })
    }

    /// Validates a view that carries an explicit contract.
    pub fn new_checked_with_contract(
        width: u32,
        height: u32,
        pixel_format: PixelFormat,
        contract: FrameContract,
        row_stride: usize,
        data: &'a [u8],
    ) -> (r: Result<Self, CameraManError>)
        ensures
            !contract_fits(contract, width, height) ==> (r matches Err(
                CameraManError::InvalidMediaContract(reason),
            ) && reason@ == geometry_mismatch_reason()),
            contract_fits(contract, width, height) ==> match view_check(
                width,
                height,
                pixel_format,
                row_stride,
                data@.len(),
            ) {
                Err(e) => r == Err::<FrameView<'a>, CameraManError>(e),
                Ok(()) => r matches Ok(v) && v@ == (FrameViewModel {
                    width,
                    height,
                    pixel_format,
                    contract,
                    row_stride,
                    active_row_bytes: (width * bytes_per_pixel_of(pixel_format)) as usize,
                    data: data@,
                }),
            },
            r matches Ok(v) ==> v.wf(),
    {
        match contract.validate(width, height) {
            Ok(()) => {},
            Err(e) => {
                return Err(e);
            },
        }
        let mut view = match Self::new_checked(width, height, pixel_format, row_stride, data) {
            Ok(view) => view,
            Err(e) => {
                return Err(e);
            },
        };
        view.contract = contract;
        Ok(view)
    }

    pub fn width(self) -> (w: u32)
        ensures
            w == self@.width,
    {
        self.width
    }

    pub fn height(self) -> (h: u32)
        ensures
            h == self@.height,
    {
        self.height
    }

    pub fn pixel_format(self) -> (f: PixelFormat)
        ensures
            f == self@.pixel_format,
    {
        self.pixel_format
    }

    pub fn contract(self) -> (c: FrameContract)
        ensures
            c == self@.contract,
    {
        self.contract
    }

    pub fn row_stride(self) -> (s: usize)
        ensures
            s == self@.row_stride,
    {
        self.row_stride
    }

    pub fn data(self) -> (d: &'a [u8])
        ensures
            d@ == self@.data,
    {
        self.data
    }

    /// Active pixels of one row, excluding trailing padding.
    pub fn row(self, y: u32) -> (r: Option<&'a [u8]>)
        requires
            self.wf(),
        ensures
            y >= self@.height ==> r is None,
            y < self@.height ==> (r matches Some(row) && row@ == view_row(self@, y as int)),
    {
        if y >= self.height {
            return None;
        }
        proof {
            lemma_row_in_view(self@, y as int);
        }
        let len = self.data.len();
        let start = y as usize * self.row_stride;
        Some(&self.data[start..start + self.active_row_bytes])
    }

    /// The BGRA bytes of pixel `(x, y)`, or `None` outside the view or for a
    /// non-BGRA layout.
    pub fn bgra_at(self, x: u32, y: u32) -> (r: Option<[u8; 4]>)
        requires
            self.wf(),
        ensures
            (x >= self@.width || y >= self@.height || self@.pixel_format != PixelFormat::Bgra8)
                ==> r is None,
            (x < self@.width && y < self@.height && self@.pixel_format == PixelFormat::Bgra8) ==> (
            r matches Some(p) && p@ == view_row(self@, y as int).subrange(x * 4, x * 4 + 4)),
    {
        if x >= self.width {
            return None;
        }
        match self.pixel_format {
            PixelFormat::Bgra8 => {},
        }
        let row = match self.row(y) {
            Some(row) => row,
            None => {
                return None;
            },
        };
        proof {
            lemma_row_in_view(self@, y as int);
        }
        assert(row@.len() == self@.active_row_bytes);
        assert(x * 4 + 4 <= self@.width * 4);
        let offset = x as usize * 4;
        let p = [row[offset], row[offset + 1], row[offset + 2], row[offset + 3]];
        assert(p@ =~= view_row(self@, y as int).subrange(x * 4, x * 4 + 4));
        Some(p)
    }

    /// Copies the active row bytes into a tightly packed frame under the
    /// memory policy of the process (see [`default_frame_limits`]).
    pub fn to_owned_tightly_packed(
        self,
        override_value: Option<&str>,
        physical_memory_bytes: Option<u64>,
    ) -> (r: Result<Frame, CameraManError>)
        requires
            self.wf(),
        ensures
            match byte_len_result(
                self@.width,
                self@.height,
                self@.pixel_format,
                process_policy(override_chars(override_value), physical_memory_bytes),
            ) {
                Err(e) => r == Err::<Frame, CameraManError>(e),
                Ok(_) => r matches Ok(f) && f@ == (FrameModel {
                    width: self@.width,
                    height: self@.height,
                    pixel_format: self@.pixel_format,
                    contract: self@.contract,
                    data: packed_rows(self@, self@.height as nat),
                }),
            },
            r matches Ok(f) ==> f.wf(),
    {
        let limits = default_frame_limits(override_value, physical_memory_bytes);
        self.to_owned_tightly_packed_with_limits(limits)
    }

    /// Copies the active row bytes into a tightly packed frame.
    pub fn to_owned_tightly_packed_with_limits(self, limits: FrameLimits) -> (r: Result<
        Frame,
        CameraManError,
    >)
        requires
            self.wf(),
        ensures
            match byte_len_result(self@.width, self@.height, self@.pixel_format, limits) {
                Err(e) => r == Err::<Frame, CameraManError>(e),
                Ok(_) => r matches Ok(f) && f@ == (FrameModel {
                    width: self@.width,
                    height: self@.height,
                    pixel_format: self@.pixel_format,
                    contract: self@.contract,
                    data: packed_rows(self@, self@.height as nat),
                }),
            },
            r matches Ok(f) ==> f.wf(),
    {
        let tight_len = match byte_len(self.width, self.height, self.pixel_format, limits) {
            Ok(len) => len,
            Err(e) => {
                return Err(e);
            },
        };
        let mut pixels: Vec<u8> = Vec::with_capacity(tight_len);
        let mut y: u32 = 0;
        while y < self.height
            invariant
                self.wf(),
                y <= self@.height,
                pixels@ == packed_rows(self@, y as nat),
            decreases self@.height - y,
        {
            let row = match self.row(y) {
                Some(row) => row,
                None => {
                    return Err(CameraManError::EmptyFrame);
                },
            };
            pixels.extend_from_slice(row);
            y = y + 1;
        }
        proof {
            lemma_packed_rows_len(self@, self@.height as nat);
            assert(self@.height * (self@.width * bytes_per_pixel_of(self@.pixel_format))
                == frame_bytes(self@.width, self@.height, bytes_per_pixel_of(self@.pixel_format)))
                by (nonlinear_arith);
        }
        let mut frame = match Frame::new_checked_with_limits(
            self.width,
            self.height,
            self.pixel_format,
            pixels,
            limits,
        ) {
            Ok(frame) => frame,
            Err(e) => {
                return Err(e);
            },
        };
        match frame.set_contract(self.contract) {
            Ok(()) => {},
            Err(e) => {
                return Err(e);
            },
        }
        Ok(frame)
    }
}

/// The view of a tightly packed frame: each row directly follows the
/// previous one.
pub open spec fn tight_view(m: FrameModel) -> FrameViewModel {
    FrameViewModel {
        width: m.width,
        height: m.height,
        pixel_format: m.pixel_format,
        contract: m.contract,
        row_stride: (m.width * bytes_per_pixel_of(m.pixel_format)) as usize,
        active_row_bytes: (m.width * bytes_per_pixel_of(m.pixel_format)) as usize,
        data: m.data,
    }
}

/// Packing the first `rows` rows of a tight view gives the frame's first
/// `rows` rows of bytes.
proof fn lemma_tight_rows(m: FrameModel, rows: nat)
    requires
        frame_model_wf(m),
        rows <= m.height,
        m.width * bytes_per_pixel_of(m.pixel_format) <= usize::MAX,
    ensures
        packed_rows(tight_view(m), rows) == m.data.subrange(
            0,
            rows * (m.width * bytes_per_pixel_of(m.pixel_format)),
        ),
    decreases rows,
{
    let a = m.width * bytes_per_pixel_of(m.pixel_format);
    let r = rows as int;
    assert(m.data.len() == m.height * a) by (nonlinear_arith)
        requires
            m.data.len() == m.width * m.height * bytes_per_pixel_of(m.pixel_format),
            a == m.width * bytes_per_pixel_of(m.pixel_format),
    ;
    assert(r * a <= m.height * a) by (nonlinear_arith)
        requires
            r <= m.height,
            a >= 0,
    ;
    let tv = tight_view(m);
    assert(tv.row_stride == a && tv.active_row_bytes == a);
    if rows == 0 {
        assert(r * a == 0) by (nonlinear_arith)
            requires
                r == 0,
        ;
        assert(packed_rows(tv, rows) =~= m.data.subrange(0, r * a));
    } else {
        lemma_tight_rows(m, (rows - 1) as nat);
        assert((r - 1) * a + a == r * a) by (nonlinear_arith);
        assert(0 <= (r - 1) * a) by (nonlinear_arith)
            requires
                r >= 1,
                a >= 0,
        ;
        assert(packed_rows(tv, rows) == packed_rows(tv, (rows - 1) as nat) + view_row(tv, r - 1));
        assert(view_row(tv, r - 1) =~= m.data.subrange((r - 1) * a, r * a));
        assert(packed_rows(tv, rows) =~= m.data.subrange(0, r * a));
    }
}

/// A tightly packed frame survives `as_view` followed by
/// `to_owned_tightly_packed`: packing the rows of its tight view gives back
/// its bytes, so the copy has the frame's own model.
pub proof fn law_tight_view_round_trip(f: FrameModel)
    requires
        frame_model_wf(f),
        f.width * bytes_per_pixel_of(f.pixel_format) <= usize::MAX,
    ensures
        packed_rows(tight_view(f), f.height as nat) == f.data,
        (FrameModel {
            width: tight_view(f).width,
            height: tight_view(f).height,
            pixel_format: tight_view(f).pixel_format,
            contract: tight_view(f).contract,
            data: packed_rows(tight_view(f), tight_view(f).height as nat),
        }) == f,
{
    lemma_tight_rows(f, f.height as nat);
    let a = f.width * bytes_per_pixel_of(f.pixel_format);
    assert(f.data.len() == f.height * a) by (nonlinear_arith)
        requires
            f.data.len() == f.width * f.height * bytes_per_pixel_of(f.pixel_format),
            a == f.width * bytes_per_pixel_of(f.pixel_format),
    ;
    assert(f.data.subrange(0, f.height * a) =~= f.data);
}

impl Frame {
    /// Borrows this tightly packed frame as a stride-aware view.
    pub fn as_view(&self) -> (v: FrameView<'_>)
        requires
            self.wf(),
        ensures
            v.wf(),
            v@ == tight_view(self@),
    {
        let len = self.data.len();
        let bpp = self.pixel_format.bytes_per_pixel();
        proof {
            lemma_pixel_in_bounds(self.width as int, self.height as int, bpp as int, 0, 0);
            assert((self.height - 1) * (self.width * bpp) + self.width * bpp == self.width
                * self.height * bpp) by (nonlinear_arith);
        }
        let row_stride = self.width as usize * bpp;
        FrameView {
            width: self.width,
            height: self.height,
            pixel_format: self.pixel_format,
            contract: self.contract,
            row_stride,
            active_row_bytes: row_stride,
            data: self.data.as_slice(),
        }
    }
}

// ---------------------------------------------------------------------------
// Captured frames
// ---------------------------------------------------------------------------

/// One validated frame paired with source metadata.
#[derive(Debug, Clone, PartialEq, Eq)]
pub struct CapturedFrame {
    frame: Frame,
    metadata: FrameMetadata,
}

impl CapturedFrame {
    pub closed spec fn spec_frame(&self) -> Frame {
        self.frame
    }

    pub closed spec fn spec_metadata(&self) -> FrameMetadata {
        self.metadata
    }

    pub fn new(frame: Frame, metadata: FrameMetadata) -> (c: Self)
        ensures
            c.spec_frame() == frame,
            c.spec_metadata() == metadata,
    {
        CapturedFrame { frame, metadata }
    }

    pub fn frame(&self) -> (f: &Frame)
        ensures
            *f == self.spec_frame(),
    {
        &self.frame
    }

    pub fn metadata(&self) -> (m: &FrameMetadata)
        ensures
            *m == self.spec_metadata(),
    {
        &self.metadata
    }

    pub fn into_frame(self) -> (f: Frame)
        ensures
            f == self.spec_frame(),
    {
        self.frame
    }

    /// A copy with the same pixels and metadata.
    pub fn duplicate(&self) -> (c: Self)
        ensures
            c.spec_frame()@ == self.spec_frame()@,
            c.spec_metadata() == self.spec_metadata(),
    {
        let metadata = FrameMetadata {
            source_id: self.metadata.source_id.clone(),
            sequence: self.metadata.sequence,
            timestamps: self.metadata.timestamps,
        };
        CapturedFrame { frame: self.frame.duplicate(), metadata }
    }
}

} // verus!
