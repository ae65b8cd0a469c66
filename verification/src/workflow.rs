//! The streaming workflow: commands from the UI reduced to state changes and
//! the events the app acts on.
use vstd::prelude::*;

verus! {

/// What the streaming workflow knows.
#[derive(Debug, Clone, Copy, PartialEq, Eq, Structural)]
pub struct WorkflowState {
    pub running: bool,
    pub selected_sources: usize,
    pub virtual_output_enabled: bool,
}

/// A request from the UI.
#[derive(Debug, Clone, Copy, PartialEq, Eq, Structural)]
pub enum AppCommand {
    ToggleStreaming,
    SetVirtualOutput(bool),
}

/// What a command did.
#[derive(Debug, Clone, Copy, PartialEq, Eq, Structural)]
pub enum AppEvent {
    StreamingStarted,
    StreamingStopped,
    StartRejectedNoSources,
    VirtualOutputChanged { enabled: bool, disconnect_transport: bool },
    NoChange,
}

/// The state after a command and the event it yields.
pub open spec fn step(state: WorkflowState, command: AppCommand) -> (WorkflowState, AppEvent) {
    match command {
        AppCommand::ToggleStreaming => if state.running {
            (WorkflowState { running: false, ..state }, AppEvent::StreamingStopped)
        } else if state.selected_sources == 0 {
            (state, AppEvent::StartRejectedNoSources)
        } else {
            (WorkflowState { running: true, ..state }, AppEvent::StreamingStarted)
        },
        AppCommand::SetVirtualOutput(enabled) => if enabled == state.virtual_output_enabled {
            (state, AppEvent::NoChange)
        } else {
            (
                WorkflowState { virtual_output_enabled: enabled, ..state },
                AppEvent::VirtualOutputChanged { enabled, disconnect_transport: !enabled },
            )
        },
    }
}

/// Applies a command to the workflow state and reports what happened.
pub fn reduce(state: &mut WorkflowState, command: AppCommand) -> (event: AppEvent)
    ensures
        (*final(state), event) == step(*old(state), command),
{
    match command {
        AppCommand::ToggleStreaming => {
            if state.running {
                state.running = false;
                AppEvent::StreamingStopped
            } else if state.selected_sources == 0 {
                AppEvent::StartRejectedNoSources
            } else {
                state.running = true;
                AppEvent::StreamingStarted
            }
        },
        AppCommand::SetVirtualOutput(enabled) => {
            if enabled == state.virtual_output_enabled {
                AppEvent::NoChange
            } else {
                state.virtual_output_enabled = enabled;
                AppEvent::VirtualOutputChanged { enabled, disconnect_transport: !enabled }
            }
        },
    }
}

/// Starting without a selected source is refused and changes nothing.
pub proof fn law_start_without_sources_is_rejected(state: WorkflowState)
    requires
        !state.running,
        state.selected_sources == 0,
    ensures
        step(state, AppCommand::ToggleStreaming) == (state, AppEvent::StartRejectedNoSources),
{
}

/// With a source selected, toggling twice returns to the same state, and the
/// two events are a start and a stop in one order or the other.
pub proof fn law_toggle_twice_restores_the_state(state: WorkflowState)
    requires
        state.selected_sources > 0,
    ensures
        step(step(state, AppCommand::ToggleStreaming).0, AppCommand::ToggleStreaming).0 == state,
        state.running ==> step(state, AppCommand::ToggleStreaming).1 == AppEvent::StreamingStopped
            && step(step(state, AppCommand::ToggleStreaming).0, AppCommand::ToggleStreaming).1
            == AppEvent::StreamingStarted,
        !state.running ==> step(state, AppCommand::ToggleStreaming).1 == AppEvent::StreamingStarted
            && step(step(state, AppCommand::ToggleStreaming).0, AppCommand::ToggleStreaming).1
            == AppEvent::StreamingStopped,
{
}

/// Setting the output twice to the same value changes it at most once: the
/// second command is `NoChange`, so a transport disconnect is requested at
/// most once.
pub proof fn law_output_change_is_idempotent(state: WorkflowState, enabled: bool)
    ensures
        step(step(state, AppCommand::SetVirtualOutput(enabled)).0, AppCommand::SetVirtualOutput(
            enabled,
        )) == (step(state, AppCommand::SetVirtualOutput(enabled)).0, AppEvent::NoChange),
        step(state, AppCommand::SetVirtualOutput(enabled)).0.virtual_output_enabled == enabled,
{
}

/// Only streaming commands touch `running`, only output commands touch the
/// output flag, and no command changes the source count.
pub proof fn law_commands_touch_only_their_own_field(state: WorkflowState, command: AppCommand)
    ensures
        step(state, command).0.selected_sources == state.selected_sources,
        command is ToggleStreaming ==> step(state, command).0.virtual_output_enabled
            == state.virtual_output_enabled,
        command is SetVirtualOutput ==> step(state, command).0.running == state.running,
{
}

} // verus!
