//! Layout minimums of the main window, in whole logical points, and the
//! named states the visual fixtures render.
use vstd::prelude::*;

use crate::text::str_eq;

verus! {

pub const MIN_WINDOW_WIDTH: u32 = 920;

pub const MIN_WINDOW_HEIGHT: u32 = 560;

pub const MIN_POINTER_TARGET: u32 = 28;

pub const STATUS_BAR_HEIGHT: u32 = 40;

pub const SOURCES_PANEL_MIN_WIDTH: u32 = 270;

pub const SOURCES_PANEL_DEFAULT_WIDTH: u32 = 294;

pub const SOURCES_PANEL_MAX_WIDTH: u32 = 380;

pub const OUTPUT_PANEL_MIN_WIDTH: u32 = 230;

pub const OUTPUT_PANEL_DEFAULT_WIDTH: u32 = 252;

pub const OUTPUT_PANEL_MAX_WIDTH: u32 = 330;

pub const CENTRAL_HORIZONTAL_MARGIN: u32 = 12;

/// At the minimum window size, with both side panels at their minimum
/// widths, the preview keeps a column of at least 360 points and the
/// workspace at least 500 points of height.
pub proof fn law_minimum_workspace_preserves_a_preview_column()
    ensures
        MIN_WINDOW_WIDTH - SOURCES_PANEL_MIN_WIDTH - OUTPUT_PANEL_MIN_WIDTH - CENTRAL_HORIZONTAL_MARGIN
            * 2 >= 360,
        MIN_WINDOW_HEIGHT - STATUS_BAR_HEIGHT >= 500,
{
}

/// Every panel's default width lies between its minimum and maximum, and the
/// status bar is itself a comfortable pointer target.
pub proof fn law_panel_widths_are_ordered()
    ensures
        SOURCES_PANEL_MIN_WIDTH <= SOURCES_PANEL_DEFAULT_WIDTH <= SOURCES_PANEL_MAX_WIDTH,
        OUTPUT_PANEL_MIN_WIDTH <= OUTPUT_PANEL_DEFAULT_WIDTH <= OUTPUT_PANEL_MAX_WIDTH,
        STATUS_BAR_HEIGHT >= MIN_POINTER_TARGET,
{
}

/// A state the visual fixtures can render.
#[derive(Debug, Clone, Copy, PartialEq, Eq, Structural)]
pub enum UiFixtureState {
    Workspace,
    Setup,
    Empty,
    Mixed,
    Disconnected,
    InstallError,
    Running,
}

impl Default for UiFixtureState {
    fn default() -> (s: Self)
        ensures
            s == UiFixtureState::Workspace,
    {
        UiFixtureState::Workspace
    }
}

/// The stable name of a fixture state.
pub open spec fn fixture_name(state: UiFixtureState) -> Seq<char> {
    match state {
        UiFixtureState::Workspace => "workspace"@,
        UiFixtureState::Setup => "setup"@,
        UiFixtureState::Empty => "empty"@,
        UiFixtureState::Mixed => "mixed"@,
        UiFixtureState::Disconnected => "disconnected"@,
        UiFixtureState::InstallError => "install-error"@,
        UiFixtureState::Running => "running"@,
    }
}

proof fn lemma_fixture_names_distinct()
    ensures
        forall|a: UiFixtureState, b: UiFixtureState|
            fixture_name(a) == fixture_name(b) ==> a == b,
{
    reveal_strlit("workspace");
    reveal_strlit("setup");
    reveal_strlit("empty");
    reveal_strlit("mixed");
    reveal_strlit("disconnected");
    reveal_strlit("install-error");
    reveal_strlit("running");
    assert forall|a: UiFixtureState, b: UiFixtureState|
        fixture_name(a) == fixture_name(b) implies a == b by {
        if a != b {
            let na = fixture_name(a);
            let nb = fixture_name(b);
            if na.len() == nb.len() {
                assert(na[0] != nb[0] || na[1] != nb[1]);
            }
        }
    }
}

impl UiFixtureState {
    /// The state with the given stable name.
    pub fn parse(value: &str) -> (r: Option<Self>)
        ensures
            match r {
                Some(s) => fixture_name(s) == value@,
                None => forall|s: UiFixtureState| fixture_name(s) != value@,
            },
    {
        if str_eq(value, "workspace") {
            Some(UiFixtureState::Workspace)
        } else if str_eq(value, "setup") {
            Some(UiFixtureState::Setup)
        } else if str_eq(value, "empty") {
            Some(UiFixtureState::Empty)
        } else if str_eq(value, "mixed") {
            Some(UiFixtureState::Mixed)
        } else if str_eq(value, "disconnected") {
            Some(UiFixtureState::Disconnected)
        } else if str_eq(value, "install-error") {
            Some(UiFixtureState::InstallError)
        } else if str_eq(value, "running") {
            Some(UiFixtureState::Running)
        } else {
            assert forall|s: UiFixtureState| fixture_name(s) != value@ by {}
            None
        }
    }
}

/// No two fixture states share a name, so by the contract of
/// [`UiFixtureState::parse`] each state's name parses back to that state.
pub proof fn law_fixture_names_are_distinct(state: UiFixtureState, other: UiFixtureState)
    ensures
        fixture_name(other) == fixture_name(state) ==> other == state,
{
    lemma_fixture_names_distinct();
}

} // verus!
