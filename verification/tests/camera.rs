use eucalyptus::camera::{
    camera_keys_active, find_debug_camera, find_player_camera, is_using_debug_camera,
    mouse_look_active, moves_for_keys, set_initial_camera, CameraEntry, DebugCamera, PlayerCamera,
};
use eucalyptus::editor::{CameraType, EditorState};
use eucalyptus::input::{CameraMove, Key, ViewportMode};

#[test]
fn held_keys_give_camera_steps_in_order() {
    let keys = vec![Key::KeyW, Key::KeyG, Key::Space, Key::ShiftLeft, Key::KeyA, Key::Other(5)];
    assert_eq!(
        moves_for_keys(&keys),
        vec![CameraMove::Forwards, CameraMove::Up, CameraMove::Down, CameraMove::Left]
    );
    assert!(moves_for_keys(&Vec::new()).is_empty());
}

#[test]
fn camera_controllers() {
    assert_eq!(PlayerCamera::camera_type(), CameraType::Player);
    assert_eq!(DebugCamera::camera_type(), CameraType::Debug);
    let keys = vec![Key::KeyS, Key::KeyD];
    assert_eq!(
        PlayerCamera::handle_keyboard_input(&keys),
        vec![CameraMove::Back, CameraMove::Right]
    );
    assert_eq!(
        DebugCamera::handle_keyboard_input(&keys),
        vec![CameraMove::Back, CameraMove::Right]
    );
}

#[test]
fn mouse_look_rules() {
    assert!(mouse_look_active(true, ViewportMode::CameraMove, EditorState::Editing, true));
    assert!(!mouse_look_active(false, ViewportMode::CameraMove, EditorState::Editing, false));
    assert!(mouse_look_active(false, ViewportMode::Idle, EditorState::Playing, false));
    assert!(!mouse_look_active(false, ViewportMode::Idle, EditorState::Playing, true));
    assert!(camera_keys_active(true, ViewportMode::CameraMove));
    assert!(!camera_keys_active(true, ViewportMode::Gizmo));
    assert!(!camera_keys_active(false, ViewportMode::CameraMove));
}

fn cam(entity: u64, camera_type: CameraType, starting: bool) -> CameraEntry {
    CameraEntry { entity, camera_type, starting }
}

#[test]
fn camera_switch_picks_first_match() {
    let cams = vec![
        cam(1, CameraType::Normal, false),
        cam(2, CameraType::Player, true),
        cam(3, CameraType::Debug, false),
        cam(4, CameraType::Debug, false),
        cam(5, CameraType::Normal, true),
    ];
    assert_eq!(find_debug_camera(&cams), Some(3));
    assert_eq!(find_player_camera(&cams), Some(2));
    let none = vec![cam(1, CameraType::Normal, false)];
    assert_eq!(find_debug_camera(&none), None);
    assert_eq!(find_player_camera(&none), None);
}

#[test]
fn using_debug_camera() {
    assert!(is_using_debug_camera(Some(CameraType::Debug)));
    assert!(!is_using_debug_camera(Some(CameraType::Player)));
    assert!(!is_using_debug_camera(None));
}

#[test]
fn setting_initial_camera_clears_the_others() {
    let mut cams = vec![
        cam(1, CameraType::Player, true),
        cam(2, CameraType::Normal, false),
        cam(3, CameraType::Normal, true),
    ];
    let undo = set_initial_camera(&mut cams, 2);
    assert_eq!(undo, vec![1, 2, 3]);
    let starting: Vec<bool> = cams.iter().map(|c| c.starting).collect();
    assert_eq!(starting, vec![false, true, false]);
    assert_eq!(cams[0].camera_type, CameraType::Player);
}
