use camera_man::ui_layout::{
    UiFixtureState, CENTRAL_HORIZONTAL_MARGIN, MIN_POINTER_TARGET, MIN_WINDOW_HEIGHT,
    MIN_WINDOW_WIDTH, OUTPUT_PANEL_MIN_WIDTH, SOURCES_PANEL_MIN_WIDTH, STATUS_BAR_HEIGHT,
};

#[test]
fn minimum_workspace_preserves_a_useful_preview_column() {
    let preview_width = MIN_WINDOW_WIDTH as f32
        - SOURCES_PANEL_MIN_WIDTH as f32
        - OUTPUT_PANEL_MIN_WIDTH as f32
        - CENTRAL_HORIZONTAL_MARGIN as f32 * 2.0;
    let workspace_height = MIN_WINDOW_HEIGHT as f32 - STATUS_BAR_HEIGHT as f32;
    assert!(preview_width >= 360.0);
    assert!(workspace_height >= 500.0);
}

#[test]
fn frequent_pointer_targets_share_one_minimum() {
    let minimum = MIN_POINTER_TARGET as f32;
    let frequent_target_heights = [minimum, 30.0, 32.0, 36.0, STATUS_BAR_HEIGHT as f32];
    assert!(
        frequent_target_heights
            .into_iter()
            .all(|height| height >= minimum)
    );
}

#[test]
fn every_visual_fixture_state_has_a_stable_name() {
    for (name, state) in [
        ("workspace", UiFixtureState::Workspace),
        ("setup", UiFixtureState::Setup),
        ("empty", UiFixtureState::Empty),
        ("mixed", UiFixtureState::Mixed),
        ("disconnected", UiFixtureState::Disconnected),
        ("install-error", UiFixtureState::InstallError),
        ("running", UiFixtureState::Running),
    ] {
        assert_eq!(UiFixtureState::parse(name), Some(state));
    }
}

#[test]
fn unknown_fixture_names_are_rejected() {
    assert_eq!(UiFixtureState::parse("Workspace"), None);
    assert_eq!(UiFixtureState::parse(""), None);
    assert_eq!(UiFixtureState::default(), UiFixtureState::Workspace);
}
