use eucalyptus::undo::{
    focus_edge, DragUndoTracker, FocusEdge, LabelEditTracker, UndoStack, LABEL_DEBOUNCE_MS,
};

#[test]
fn undo_stack_pops_newest_first() {
    let mut s: UndoStack<u32> = UndoStack::new();
    assert!(s.is_empty());
    s.push_to_undo(1);
    s.push_to_undo(2);
    assert_eq!(s.len(), 2);
    assert_eq!(s.pop(), Some(2));
    assert_eq!(s.pop(), Some(1));
    assert_eq!(s.pop(), None);
    assert!(s.is_empty());
}

#[test]
fn undo_of_last_push_restores_stack() {
    let mut s: UndoStack<&str> = UndoStack::new();
    s.push_to_undo("rename");
    let before = s.len();
    s.push_to_undo("move");
    assert_eq!(s.pop(), Some("move"));
    assert_eq!(s.len(), before);
}

#[test]
fn label_edit_becomes_step_on_focus_lost() {
    let mut t = LabelEditTracker::new();
    t.label_changed(7, &"Cube".to_string(), 100);
    t.label_changed(7, &"Cube2".to_string(), 150);
    assert_eq!(t.focus_lost(7), Some((7, "Cube".to_string())));
    // nothing left afterwards
    assert_eq!(t.focus_lost(7), None);
    assert_eq!(t.tick(10_000), None);
}

#[test]
fn label_edit_of_other_entity_is_dropped() {
    let mut t = LabelEditTracker::new();
    t.label_changed(7, &"Cube".to_string(), 100);
    assert_eq!(t.focus_lost(8), None);
    assert_eq!(t.tick(10_000), None);
}

#[test]
fn label_edit_debounce() {
    let mut t = LabelEditTracker::new();
    t.label_changed(3, &"Light".to_string(), 1_000);
    assert_eq!(t.tick(1_000 + LABEL_DEBOUNCE_MS - 1), None);
    assert_eq!(t.tick(1_000 + LABEL_DEBOUNCE_MS), Some((3, "Light".to_string())));
    assert_eq!(t.tick(5_000), None);
}

#[test]
fn label_edit_debounce_restarts_on_change() {
    let mut t = LabelEditTracker::new();
    t.label_changed(3, &"A".to_string(), 0);
    t.label_changed(3, &"AB".to_string(), 400);
    assert_eq!(t.tick(600), None);
    assert_eq!(t.tick(900), Some((3, "A".to_string())));
}

#[test]
fn label_edit_clock_going_back_counts_as_no_time() {
    let mut t = LabelEditTracker::new();
    t.label_changed(1, &"X".to_string(), 1_000);
    assert_eq!(t.tick(0), None);
}

#[test]
fn drag_round_trip_gives_original() {
    let mut d: DragUndoTracker<(i32, i32)> = DragUndoTracker::new();
    assert!(!d.in_progress());
    d.drag_started(9, (1, 2));
    assert!(d.in_progress());
    assert_eq!(d.drag_stopped(), Some((9, (1, 2))));
    assert!(!d.in_progress());
    assert_eq!(d.drag_stopped(), None);
}

#[test]
fn drag_stop_without_start() {
    let mut d: DragUndoTracker<u8> = DragUndoTracker::new();
    assert_eq!(d.drag_stopped(), None);
}

#[test]
fn gizmo_focus_edges() {
    assert_eq!(focus_edge(false, true), FocusEdge::Grabbed);
    assert_eq!(focus_edge(true, false), FocusEdge::Released);
    assert_eq!(focus_edge(true, true), FocusEdge::Unchanged);
    assert_eq!(focus_edge(false, false), FocusEdge::Unchanged);
}
