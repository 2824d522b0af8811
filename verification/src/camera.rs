//! Camera controllers: what the held keys make a camera do.
use crate::editor::{CameraType, EditorState};
use crate::input::{camera_move, camera_move_spec, CameraMove, Key, ViewportMode};
use vstd::prelude::*;

verus! {

/// The camera steps a list of held keys asks for, key by key.
pub open spec fn moves_of(keys: Seq<Key>) -> Seq<CameraMove>
    decreases keys.len(),
{
    if keys.len() == 0 {
        Seq::empty()
    } else {
        let m = moves_of(keys.drop_last());
        match camera_move_spec(keys.last()) {
            Some(mv) => m.push(mv),
            None => m,
        }
    }
}

/// The camera steps asked for by `keys`, in order.
pub fn moves_for_keys(keys: &Vec<Key>) -> (r: Vec<CameraMove>)
    ensures
        r@ == moves_of(keys@),
{
    let mut r: Vec<CameraMove> = Vec::new();
    let mut i: usize = 0;
    while i < keys.len()
        invariant
            i <= keys@.len(),
            r@ == moves_of(keys@.take(i as int)),
        decreases keys@.len() - i,
    {
        assert(keys@.take(i + 1).drop_last() =~= keys@.take(i as int));
        match camera_move(keys[i]) {
            Some(m) => r.push(m),
            None => {},
        }
        i = i + 1;
    }
    assert(keys@.take(keys@.len() as int) =~= keys@);
    r
}

/// The controller of the player's camera.
pub struct PlayerCamera;

/// The controller of the editor's free-flying camera.
pub struct DebugCamera;

impl PlayerCamera {
    /// The role a camera driven by this controller has.
    pub fn camera_type() -> (r: CameraType)
        ensures
            r == CameraType::Player,
    {
        CameraType::Player
    }

    /// The steps the held keys make the camera take.
    pub fn handle_keyboard_input(pressed_keys: &Vec<Key>) -> (r: Vec<CameraMove>)
        ensures
            r@ == moves_of(pressed_keys@),
    {
        moves_for_keys(pressed_keys)
    }
}

impl DebugCamera {
    /// The role a camera driven by this controller has.
    pub fn camera_type() -> (r: CameraType)
        ensures
            r == CameraType::Debug,
    {
        CameraType::Debug
    }

    /// The steps the held keys make the camera take.
    pub fn handle_keyboard_input(pressed_keys: &Vec<Key>) -> (r: Vec<CameraMove>)
        ensures
            r@ == moves_of(pressed_keys@),
    {
        moves_for_keys(pressed_keys)
    }
}

/// A camera of the world as the camera switch sees it.
#[derive(Clone, Copy, PartialEq, Eq, Structural, Debug)]
pub struct CameraEntry {
    pub entity: u64,
    pub camera_type: CameraType,
    /// Whether it is the game's initial camera.
    pub starting: bool,
}

/// Whether camera `i` is the first debug camera of `cams`.
pub open spec fn first_debug_at(cams: Seq<CameraEntry>, i: int) -> bool {
    &&& 0 <= i < cams.len()
    &&& cams[i].camera_type == CameraType::Debug
    &&& forall|j: int| 0 <= j < i ==> cams[j].camera_type != CameraType::Debug
}

/// Whether camera `i` is the first initial camera of `cams`.
pub open spec fn first_starting_at(cams: Seq<CameraEntry>, i: int) -> bool {
    &&& 0 <= i < cams.len()
    &&& cams[i].starting
    &&& forall|j: int| 0 <= j < i ==> !cams[j].starting
}

/// The camera the editor switches to when play mode ends: the first debug camera.
pub fn find_debug_camera(cams: &Vec<CameraEntry>) -> (r: Option<u64>)
    ensures
        match r {
            Some(e) => exists|i: int| #[trigger] first_debug_at(cams@, i) && cams@[i].entity == e,
            None => forall|i: int| 0 <= i < cams@.len() ==> cams@[i].camera_type != CameraType::Debug,
        },
{
    let mut i: usize = 0;
    while i < cams.len()
        invariant
            i <= cams@.len(),
            forall|j: int| 0 <= j < i ==> cams@[j].camera_type != CameraType::Debug,
        decreases cams@.len() - i,
    {
        if cams[i].camera_type == CameraType::Debug {
            assert(first_debug_at(cams@, i as int));
            return Some(cams[i].entity);
        }
        i = i + 1;
    }
    None
}

/// The camera the editor switches to when play mode starts: the first initial camera.
pub fn find_player_camera(cams: &Vec<CameraEntry>) -> (r: Option<u64>)
    ensures
        match r {
            Some(e) => exists|i: int| #[trigger] first_starting_at(cams@, i) && cams@[i].entity == e,
            None => forall|i: int| 0 <= i < cams@.len() ==> !cams@[i].starting,
        },
{
    let mut i: usize = 0;
    while i < cams.len()
        invariant
            i <= cams@.len(),
            forall|j: int| 0 <= j < i ==> !cams@[j].starting,
        decreases cams@.len() - i,
    {
        if cams[i].starting {
            assert(first_starting_at(cams@, i as int));
            return Some(cams[i].entity);
        }
        i = i + 1;
    }
    None
}

/// Makes the camera of `entity` the game's initial camera: every camera
/// loses the flag (each such change is returned, in order, as an undo entry
/// naming its camera) and then the camera of `entity` gets it.
pub fn set_initial_camera(cams: &mut Vec<CameraEntry>, entity: u64) -> (undo: Vec<u64>)
    ensures
        final(cams)@.len() == old(cams)@.len(),
        forall|i: int| 0 <= i < old(cams)@.len() ==> {
            &&& (#[trigger] final(cams)@[i]).entity == old(cams)@[i].entity
            &&& final(cams)@[i].camera_type == old(cams)@[i].camera_type
            &&& final(cams)@[i].starting == (old(cams)@[i].entity == entity)
        },
        undo@ == old(cams)@.map_values(|c: CameraEntry| c.entity),
{
    let mut undo: Vec<u64> = Vec::new();
    let mut i: usize = 0;
    while i < cams.len()
        invariant
            i <= cams@.len(),
            cams@.len() == old(cams)@.len(),
            forall|j: int| 0 <= j < cams@.len() ==> {
                &&& (#[trigger] cams@[j]).entity == old(cams)@[j].entity
                &&& cams@[j].camera_type == old(cams)@[j].camera_type
                &&& j >= i ==> cams@[j].starting == old(cams)@[j].starting
                &&& j < i ==> cams@[j].starting == (old(cams)@[j].entity == entity)
            },
            undo@ == old(cams)@.take(i as int).map_values(|c: CameraEntry| c.entity),
        decreases cams@.len() - i,
    {
        let mut c = cams[i];
        undo.push(c.entity);
        c.starting = c.entity == entity;
        cams.set(i, c);
        assert(old(cams)@.take(i + 1).map_values(|c: CameraEntry| c.entity) =~= old(cams)@.take(
            i as int,
        ).map_values(|c: CameraEntry| c.entity).push(old(cams)@[i as int].entity));
        i = i + 1;
    }
    assert(old(cams)@.take(old(cams)@.len() as int) =~= old(cams)@);
    undo
}

/// Whether the editor looks through a debug camera: the active camera has
/// the debug role.
pub fn is_using_debug_camera(active_camera_type: Option<CameraType>) -> (r: bool)
    ensures
        r == (active_camera_type == Some(CameraType::Debug)),
{
    match active_camera_type {
        Some(CameraType::Debug) => true,
        _ => false,
    }
}

/// Whether mouse motion turns the active camera: while flying the camera in
/// a focused viewport, or while playing with an unlocked cursor.
pub fn mouse_look_active(
    viewport_focused: bool,
    mode: ViewportMode,
    state: EditorState,
    cursor_locked: bool,
) -> (r: bool)
    ensures
        r == ((viewport_focused && mode == ViewportMode::CameraMove) || (state
            == EditorState::Playing && !cursor_locked)),
{
    (viewport_focused && mode == ViewportMode::CameraMove) || (state.is_playing() && !cursor_locked)
}

/// Whether the flying camera follows the held keys this frame.
pub fn camera_keys_active(viewport_focused: bool, mode: ViewportMode) -> (r: bool)
    ensures
        r == (viewport_focused && mode == ViewportMode::CameraMove),
{
    viewport_focused && mode == ViewportMode::CameraMove
}

} // verus!
