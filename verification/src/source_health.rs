//! How a camera row and the preview describe a real source: the health shown
//! in the sources list and the wording shown while no frame is on screen.
use vstd::prelude::*;

use crate::config::VideoFormat;

verus! {

/// What one open camera's capture source currently reports about itself.
#[derive(Debug, Clone, Copy, PartialEq, Eq, Structural)]
pub struct RealSourceRuntime {
    pub failure_streak: u32,
    pub negotiated_format: Option<VideoFormat>,
    pub frame_gap_exceeded: bool,
}

/// The health a camera row shows.
#[derive(Debug, Clone, Copy, PartialEq, Eq, Structural)]
pub enum RowHealth {
    /// Not selected, or output stopped.
    Off,
    /// Frames stopped arriving while the read is still outstanding; no
    /// reconnect is running.
    Stalled,
    /// Opening failed this many times in a row; a reconnect is running.
    Retrying(u64),
    /// Streaming with a negotiated format.
    Connected,
    /// Selected and running, but no format negotiated yet.
    Waiting,
}

/// Health for one real camera row. A stalled read outranks the failure
/// streak it also drives up, so it is never described as retrying.
pub open spec fn row_health(checked: bool, running: bool, runtime: Option<RealSourceRuntime>) -> RowHealth {
    if !checked || !running {
        RowHealth::Off
    } else {
        match runtime {
            Some(r) => if r.frame_gap_exceeded {
                RowHealth::Stalled
            } else if r.failure_streak > 0 {
                RowHealth::Retrying(r.failure_streak as u64)
            } else if r.negotiated_format is Some {
                RowHealth::Connected
            } else {
                RowHealth::Waiting
            },
            None => RowHealth::Waiting,
        }
    }
}

/// The health of a camera row from its checkbox, the output state and what
/// its capture source reports.
pub fn real_source_health(checked: bool, running: bool, runtime: Option<RealSourceRuntime>) -> (h:
    RowHealth)
    ensures
        h == row_health(checked, running, runtime),
{
    if !checked || !running {
        return RowHealth::Off;
    }
    match runtime {
        Some(r) => {
            if r.frame_gap_exceeded {
                RowHealth::Stalled
            } else if r.failure_streak > 0 {
                RowHealth::Retrying(r.failure_streak as u64)
            } else if r.negotiated_format.is_some() {
                RowHealth::Connected
            } else {
                RowHealth::Waiting
            }
        },
        None => RowHealth::Waiting,
    }
}

/// A stalled read is reported as stalled whatever the failure streak, and
/// only a running, selected row can be anything but off.
pub proof fn law_a_stall_outranks_the_failure_streak(
    checked: bool,
    running: bool,
    runtime: Option<RealSourceRuntime>,
)
    ensures
        checked && running && (runtime matches Some(r) && r.frame_gap_exceeded) ==> row_health(
            checked,
            running,
            runtime,
        ) == RowHealth::Stalled,
        !(checked && running) ==> row_health(checked, running, runtime) == RowHealth::Off,
        row_health(checked, running, runtime) is Retrying ==> (runtime matches Some(r)
            && !r.frame_gap_exceeded),
{
}

/// Wording the preview uses while no camera frame is on screen.
#[derive(Debug, Clone, Copy, PartialEq, Eq, Structural)]
pub enum UiText {
    CameraNotResponding,
    RetryCamera,
    CameraDisconnected,
    ReconnectCamera,
    WaitingForCamera,
}

/// Title and optional action for the waiting preview. A camera whose open
/// never returned is never described as warming up.
pub open spec fn overlay_text(not_responding: bool, disconnected: bool) -> (UiText, Option<UiText>) {
    if not_responding {
        (UiText::CameraNotResponding, Some(UiText::RetryCamera))
    } else if disconnected {
        (UiText::CameraDisconnected, Some(UiText::ReconnectCamera))
    } else {
        (UiText::WaitingForCamera, None)
    }
}

/// The overlay title and action for a preview without frames.
pub fn waiting_overlay_text(not_responding: bool, disconnected: bool) -> (t: (
    UiText,
    Option<UiText>,
))
    ensures
        t == overlay_text(not_responding, disconnected),
{
    if not_responding {
        return (UiText::CameraNotResponding, Some(UiText::RetryCamera));
    }
    if disconnected {
        return (UiText::CameraDisconnected, Some(UiText::ReconnectCamera));
    }
    (UiText::WaitingForCamera, None)
}

} // verus!
