use eucalyptus::editor::EditorState;
use eucalyptus::input::{
    apply_key_command, ViewState,
    camera_move, CameraMove, GizmoMode, InputState, Key, KeyCommand, KeyContext, ViewportMode,
};

fn ctx() -> KeyContext {
    KeyContext {
        viewport_focused: true,
        viewport_mode: ViewportMode::Idle,
        editor_state: EditorState::Editing,
        has_selection: true,
        has_copied: false,
        using_debug_camera: true,
        command_is_super: false,
    }
}

#[test]
fn g_and_f_switch_viewport_modes() {
    let mut s = InputState::new(300);
    assert_eq!(s.key_down(Key::KeyG, ctx(), 0), KeyCommand::EnterGizmoMode);
    assert_eq!(s.key_down(Key::KeyF, ctx(), 1000), KeyCommand::EnterCameraMove);
    let mut c = ctx();
    c.viewport_focused = false;
    assert_eq!(s.key_down(Key::KeyG, c, 5000), KeyCommand::Track);
    assert!(s.is_held(Key::KeyG));
}

#[test]
fn ctrl_shortcuts() {
    let mut s = InputState::new(300);
    s.key_down(Key::ControlLeft, ctx(), 0);
    assert_eq!(s.key_down(Key::KeyS, ctx(), 10), KeyCommand::Save);
    assert_eq!(s.key_down(Key::KeyC, ctx(), 20), KeyCommand::CopySelected);
    assert_eq!(s.key_down(Key::KeyV, ctx(), 30), KeyCommand::WarnNothingToPaste);
    let mut c = ctx();
    c.has_copied = true;
    assert_eq!(s.key_down(Key::KeyV, c, 40), KeyCommand::Paste);
    assert_eq!(s.key_down(Key::KeyZ, ctx(), 50), KeyCommand::Undo);
    assert_eq!(s.key_down(Key::KeyQ, ctx(), 60), KeyCommand::SaveAndQuit);
    assert_eq!(s.key_down(Key::KeyP, ctx(), 70), KeyCommand::Play);
    s.key_down(Key::ShiftLeft, ctx(), 80);
    assert_eq!(s.key_down(Key::KeyZ, ctx(), 1000), KeyCommand::Ignore);
    assert!(!s.is_held(Key::KeyS));
}

#[test]
fn super_is_the_command_key_on_macos() {
    let mut s = InputState::new(300);
    let mut c = ctx();
    c.command_is_super = true;
    s.key_down(Key::ControlLeft, c, 0);
    assert_eq!(s.key_down(Key::KeyS, c, 10), KeyCommand::Track);
    s.key_down(Key::SuperRight, c, 20);
    assert_eq!(s.key_down(Key::KeyQ, c, 30), KeyCommand::SaveAndQuit);
}

#[test]
fn playing_blocks_editing_keys() {
    let mut s = InputState::new(300);
    let mut c = ctx();
    c.editor_state = EditorState::Playing;
    s.key_down(Key::ControlRight, c, 0);
    assert_eq!(s.key_down(Key::KeyS, c, 10), KeyCommand::WarnSaveWhilePlaying);
    assert_eq!(s.key_down(Key::KeyQ, c, 20), KeyCommand::WarnQuitWhilePlaying);
    assert_eq!(s.key_down(Key::Delete, c, 30), KeyCommand::Track);
    assert_eq!(s.key_down(Key::F1, c, 40), KeyCommand::Ignore);
    assert_eq!(s.key_down(Key::KeyP, c, 50), KeyCommand::Ignore);
}

#[test]
fn gizmo_mode_keys() {
    let mut s = InputState::new(300);
    let mut c = ctx();
    c.viewport_mode = ViewportMode::Gizmo;
    assert_eq!(s.key_down(Key::KeyC, c, 0), KeyCommand::SetGizmo(GizmoMode::Scale));
    assert_eq!(s.key_down(Key::KeyZ, c, 0), KeyCommand::SetGizmo(GizmoMode::Translate));
    assert_eq!(s.key_down(Key::KeyX, c, 0), KeyCommand::SetGizmo(GizmoMode::Rotate));
}

#[test]
fn double_escape_deselects() {
    let mut s = InputState::new(300);
    assert_eq!(s.key_down(Key::Escape, ctx(), 1000), KeyCommand::LeaveViewportMode);
    assert_eq!(s.key_down(Key::Escape, ctx(), 1200), KeyCommand::Deselect);
    assert_eq!(s.key_down(Key::Escape, ctx(), 1300), KeyCommand::LeaveViewportMode);
    assert_eq!(s.key_down(Key::Escape, ctx(), 2000), KeyCommand::LeaveViewportMode);
    let mut c = ctx();
    c.has_selection = false;
    assert_eq!(s.key_down(Key::Escape, c, 2100), KeyCommand::Ignore);
}

#[test]
fn double_press_memory() {
    let mut s = InputState::new(300);
    assert!(!s.double_key_pressed(Key::KeyA, 100));
    assert!(s.double_key_pressed(Key::KeyA, 400));
    assert!(!s.double_key_pressed(Key::KeyA, 500));
    assert!(!s.double_key_pressed(Key::KeyA, 900));
    assert_eq!(s.last_press_of(Key::KeyA), Some(900));
    assert_eq!(s.last_press_of(Key::KeyV), None);
}

#[test]
fn delete_and_f1() {
    let mut s = InputState::new(300);
    assert_eq!(s.key_down(Key::Delete, ctx(), 0), KeyCommand::DeleteSelected);
    let mut c = ctx();
    c.has_selection = false;
    assert_eq!(s.key_down(Key::Delete, c, 1000), KeyCommand::WarnNothingToDelete);
    assert_eq!(s.key_down(Key::F1, ctx(), 0), KeyCommand::SwitchToPlayerCamera);
    c.using_debug_camera = false;
    assert_eq!(s.key_down(Key::F1, c, 2000), KeyCommand::SwitchToDebugCamera);
}

#[test]
fn release_and_movement() {
    let mut s = InputState::new(300);
    s.press(Key::KeyW);
    s.press(Key::KeyW);
    s.press(Key::Other(5));
    s.press(Key::Space);
    assert_eq!(s.held_keys().len(), 3);
    assert_eq!(s.movement_keys(), vec![Key::KeyW, Key::Space]);
    assert_eq!(s.camera_moves(), vec![CameraMove::Forwards, CameraMove::Up]);
    s.release(Key::KeyW);
    assert!(!s.is_held(Key::KeyW));
    assert_eq!(s.held_keys(), &vec![Key::Other(5), Key::Space]);
    assert!(!s.stop_playing_requested(EditorState::Playing));
    s.press(Key::Escape);
    assert!(s.stop_playing_requested(EditorState::Playing));
    assert!(!s.stop_playing_requested(EditorState::Editing));
}

#[test]
fn key_to_camera_move() {
    assert_eq!(camera_move(Key::KeyS), Some(CameraMove::Back));
    assert_eq!(camera_move(Key::ShiftLeft), Some(CameraMove::Down));
    assert_eq!(camera_move(Key::ShiftRight), None);
}

#[test]
fn held_movement_keys_in_press_order_once_each() {
    let mut s = InputState::new(300);
    s.press(Key::KeyD);
    s.press(Key::KeyG);
    s.press(Key::KeyW);
    s.press(Key::KeyD);
    s.press(Key::Space);
    assert_eq!(s.held_keys(), &vec![Key::KeyD, Key::KeyG, Key::KeyW, Key::Space]);
    assert_eq!(s.movement_keys(), vec![Key::KeyD, Key::KeyW, Key::Space]);
    assert_eq!(
        s.camera_moves(),
        vec![CameraMove::Right, CameraMove::Forwards, CameraMove::Up]
    );
    s.release(Key::KeyW);
    assert_eq!(s.movement_keys(), vec![Key::KeyD, Key::Space]);
    assert_eq!(s.camera_moves(), vec![CameraMove::Right, CameraMove::Up]);
}

#[test]
fn key_commands_change_the_view() {
    let v = ViewState { viewport_mode: ViewportMode::Idle, gizmo_mode: GizmoMode::Translate, selected: Some(3) };
    assert_eq!(apply_key_command(v, KeyCommand::EnterGizmoMode).viewport_mode, ViewportMode::Gizmo);
    assert_eq!(apply_key_command(v, KeyCommand::EnterCameraMove).viewport_mode, ViewportMode::CameraMove);
    let g = ViewState { viewport_mode: ViewportMode::Gizmo, ..v };
    assert_eq!(apply_key_command(g, KeyCommand::LeaveViewportMode).viewport_mode, ViewportMode::Idle);
    assert_eq!(apply_key_command(g, KeyCommand::SetGizmo(GizmoMode::Scale)).gizmo_mode, GizmoMode::Scale);
    assert_eq!(apply_key_command(v, KeyCommand::Deselect).selected, None);
    assert_eq!(apply_key_command(v, KeyCommand::Save), v);
}
