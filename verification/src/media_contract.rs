//! The color interpretation and geometry a frame is declared to carry.
use vstd::prelude::*;

use crate::error::CameraManError;

verus! {

/// Color interpretation of BGRA pixels.
#[derive(Debug, Clone, Copy, PartialEq, Eq, Hash, Structural)]
pub enum Colorimetry {
    /// ITU-R BT.709 primaries and transfer, full range, opaque alpha.
    Bt709FullOpaque,
    /// ITU-R BT.709 primaries and transfer, video (limited) range, opaque alpha.
    Bt709VideoOpaque,
}

/// Geometry and color interpretation that travel with a frame.
#[derive(Debug, Clone, Copy, PartialEq, Eq, Hash, Structural)]
pub struct FrameContract {
    pub width: u32,
    pub height: u32,
    pub colorimetry: Colorimetry,
}

/// A contract describes a frame of `width` x `height` pixels.
pub open spec fn contract_fits(contract: FrameContract, width: u32, height: u32) -> bool {
    contract.width == width && contract.height == height
}

/// The reason given when a contract's geometry differs from its frame's.
pub open spec fn geometry_mismatch_reason() -> Seq<char> {
    "contract geometry does not match the frame"@
}

impl FrameContract {
    /// The contract of a tightly packed full-range BT.709 BGRA frame.
    pub fn canonical_bgra(width: u32, height: u32) -> (c: Self)
        ensures
            c == (FrameContract { width, height, colorimetry: Colorimetry::Bt709FullOpaque }),
    {
        FrameContract { width, height, colorimetry: Colorimetry::Bt709FullOpaque }
    }

    /// Accepts the contract for a frame of the given dimensions, or rejects a
    /// contract that declares a different geometry.
    pub fn validate(&self, width: u32, height: u32) -> (r: Result<(), CameraManError>)
        ensures
            contract_fits(*self, width, height) ==> r is Ok,
            !contract_fits(*self, width, height) ==> (r matches Err(
                CameraManError::InvalidMediaContract(reason),
            ) && reason@ == geometry_mismatch_reason()),
    {
        if self.width == width && self.height == height {
            Ok(())
        } else {
            Err(CameraManError::InvalidMediaContract("contract geometry does not match the frame"))
        }
    }
}

} // verus!
