use camera_man::workflow::{reduce, AppCommand, AppEvent, WorkflowState};

#[test]
fn reducer_rejects_start_without_mutating_running_state() {
    let mut state = WorkflowState {
        running: false,
        selected_sources: 0,
        virtual_output_enabled: true,
    };
    assert_eq!(
        reduce(&mut state, AppCommand::ToggleStreaming),
        AppEvent::StartRejectedNoSources
    );
    assert!(!state.running);
}

#[test]
fn reducer_emits_deterministic_start_stop_sequence() {
    let mut state = WorkflowState {
        running: false,
        selected_sources: 1,
        virtual_output_enabled: true,
    };
    assert_eq!(
        reduce(&mut state, AppCommand::ToggleStreaming),
        AppEvent::StreamingStarted
    );
    assert_eq!(
        reduce(&mut state, AppCommand::ToggleStreaming),
        AppEvent::StreamingStopped
    );
}

#[test]
fn disabling_output_requests_transport_disconnect_once() {
    let mut state = WorkflowState {
        running: true,
        selected_sources: 1,
        virtual_output_enabled: true,
    };
    assert_eq!(
        reduce(&mut state, AppCommand::SetVirtualOutput(false)),
        AppEvent::VirtualOutputChanged {
            enabled: false,
            disconnect_transport: true,
        }
    );
    assert_eq!(
        reduce(&mut state, AppCommand::SetVirtualOutput(false)),
        AppEvent::NoChange
    );
}

#[test]
fn enabling_output_does_not_request_a_disconnect() {
    let mut state = WorkflowState {
        running: false,
        selected_sources: 2,
        virtual_output_enabled: false,
    };
    assert_eq!(
        reduce(&mut state, AppCommand::SetVirtualOutput(true)),
        AppEvent::VirtualOutputChanged {
            enabled: true,
            disconnect_transport: false,
        }
    );
    assert!(state.virtual_output_enabled);
    assert!(!state.running);
    assert_eq!(state.selected_sources, 2);
}
