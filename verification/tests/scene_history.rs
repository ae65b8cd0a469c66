use camera_man::scene_history::{
    history_baseline_after_pointer, push_bounded, SceneHistory, SCENE_HISTORY_LIMIT,
};

/// A scene snapshot reduced to the layout that the drag changes.
#[derive(Debug, Clone, PartialEq)]
struct Snapshot {
    layout: &'static str,
    source_ids: Vec<String>,
}

fn scene_snapshot(layout: &'static str) -> Snapshot {
    Snapshot {
        layout,
        source_ids: vec![String::from("desk")],
    }
}

#[test]
fn pointer_drag_keeps_one_history_baseline_until_release() {
    let original = scene_snapshot("Grid");
    let intermediate = scene_snapshot("Row");
    let mut pending = None;

    assert!(history_baseline_after_pointer(&mut pending, original.clone(), true, true).is_none());
    assert!(
        history_baseline_after_pointer(&mut pending, intermediate.clone(), true, true).is_none()
    );
    let baseline = history_baseline_after_pointer(&mut pending, intermediate, false, false)
        .expect("release should finish the gesture");

    assert!(baseline == original);
    assert!(pending.is_none());
}

#[test]
fn a_click_without_a_drag_commits_its_own_snapshot() {
    let mut pending: Option<Snapshot> = None;
    let before = scene_snapshot("Grid");
    assert_eq!(
        history_baseline_after_pointer(&mut pending, before.clone(), false, false),
        Some(before)
    );
}

#[test]
fn undo_and_redo_walk_the_history_both_ways() {
    let mut history = SceneHistory::new();
    history.commit(scene_snapshot("Grid"), true);
    // Current scene is "Row"; undo restores "Grid".
    assert_eq!(history.undo(scene_snapshot("Row")), Some(scene_snapshot("Grid")));
    // The restore itself is not recorded as an edit.
    history.commit(scene_snapshot("Row"), true);
    assert_eq!(history.undo_len(), 0);
    assert_eq!(history.redo_len(), 1);
    assert_eq!(history.redo(scene_snapshot("Grid")), Some(scene_snapshot("Row")));
    assert_eq!(history.undo_len(), 1);
    assert_eq!(history.redo(scene_snapshot("Row")), None);
}

#[test]
fn an_unchanged_edit_is_not_recorded_and_a_new_edit_clears_redo() {
    let mut history = SceneHistory::new();
    history.commit(scene_snapshot("Grid"), false);
    assert_eq!(history.undo_len(), 0);
    history.commit(scene_snapshot("Grid"), true);
    history.undo(scene_snapshot("Row"));
    history.commit(scene_snapshot("Grid"), true);
    history.commit(scene_snapshot("Grid"), true);
    assert_eq!(history.redo_len(), 0);
    assert_eq!(history.undo_len(), 1);
}

#[test]
fn history_stacks_keep_only_the_newest_snapshots() {
    let mut stack = Vec::new();
    for index in 0..SCENE_HISTORY_LIMIT + 3 {
        push_bounded(&mut stack, index);
    }
    assert_eq!(stack.len(), SCENE_HISTORY_LIMIT);
    assert_eq!(stack[0], 3);
    assert_eq!(*stack.last().unwrap(), SCENE_HISTORY_LIMIT + 2);
}
