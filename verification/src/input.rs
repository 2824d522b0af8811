//! Keyboard handling of the editor: which keys are held, double presses, and
//! what a key press asks the editor to do.
use crate::camera::moves_of;
use crate::editor::EditorState;
use vstd::prelude::*;

verus! {

/// The keys the editor reacts to; every other key is `Other` with its code.
#[derive(Clone, Copy, PartialEq, Eq, Structural, Debug)]
pub enum Key {
    KeyW,
    KeyA,
    KeyS,
    KeyD,
    KeyG,
    KeyF,
    KeyQ,
    KeyC,
    KeyV,
    KeyZ,
    KeyX,
    KeyP,
    Space,
    ShiftLeft,
    ShiftRight,
    ControlLeft,
    ControlRight,
    SuperLeft,
    SuperRight,
    AltLeft,
    AltRight,
    Escape,
    Delete,
    F1,
    Other(u32),
}

/// How the viewport treats the mouse.
#[derive(Clone, Copy, PartialEq, Eq, Structural, Debug)]
pub enum ViewportMode {
    /// Neither gizmo nor camera flying.
    Idle,
    Gizmo,
    CameraMove,
}

/// Which handles the transform gizmo shows.
#[derive(Clone, Copy, PartialEq, Eq, Structural, Debug)]
pub enum GizmoMode {
    Translate,
    Rotate,
    Scale,
}

/// A step of the flying camera.
#[derive(Clone, Copy, PartialEq, Eq, Structural, Debug)]
pub enum CameraMove {
    Forwards,
    Left,
    Right,
    Back,
    Down,
    Up,
}

/// What a key press asks the editor to do.
#[derive(Clone, Copy, PartialEq, Eq, Structural, Debug)]
pub enum KeyCommand {
    /// Nothing happens.
    Ignore,
    /// The key is now held (and recorded as such).
    Track,
    /// Switch the viewport to the gizmo, with a visible cursor.
    EnterGizmoMode,
    /// Switch the viewport to camera flying, hiding and centring the cursor.
    EnterCameraMove,
    /// Leave the viewport mode, with a visible cursor.
    LeaveViewportMode,
    /// Ask for the selected entity to be deleted.
    DeleteSelected,
    /// Warn that nothing is selected to delete.
    WarnNothingToDelete,
    /// Drop the selection.
    Deselect,
    /// Save the project and quit.
    SaveAndQuit,
    /// Warn that quitting must wait until play mode ends.
    WarnQuitWhilePlaying,
    /// Copy the selected entity.
    CopySelected,
    /// Warn that nothing is selected to copy.
    WarnNothingToCopy,
    /// Show the given gizmo handles.
    SetGizmo(GizmoMode),
    /// Paste the copied entity.
    Paste,
    /// Warn that nothing was copied.
    WarnNothingToPaste,
    /// Save the project.
    Save,
    /// Warn that saving must wait until play mode ends.
    WarnSaveWhilePlaying,
    /// Undo the last action.
    Undo,
    /// Look through the player camera.
    SwitchToPlayerCamera,
    /// Look through the debug camera.
    SwitchToDebugCamera,
    /// Enter play mode.
    Play,
}

/// What the editor knows when a key goes down.
#[derive(Clone, Copy, PartialEq, Eq, Structural, Debug)]
pub struct KeyContext {
    pub viewport_focused: bool,
    pub viewport_mode: ViewportMode,
    pub editor_state: EditorState,
    pub has_selection: bool,
    /// Whether an entity has been copied and can be pasted.
    pub has_copied: bool,
    pub using_debug_camera: bool,
    /// Whether the command key is the Super key (macOS) rather than Control.
    pub command_is_super: bool,
}

/// The decision of a key press, given whether the command and shift
/// modifiers are held and whether the press is a double press.
pub open spec fn key_command(
    ctx: KeyContext,
    key: Key,
    command: bool,
    shift: bool,
    double: bool,
) -> KeyCommand {
    let playing = ctx.editor_state == EditorState::Playing;
    match key {
        Key::KeyG => if ctx.viewport_focused && !playing {
            KeyCommand::EnterGizmoMode
        } else {
            KeyCommand::Track
        },
        Key::KeyF => if ctx.viewport_focused && !playing {
            KeyCommand::EnterCameraMove
        } else {
            KeyCommand::Track
        },
        Key::Delete => if !playing {
            if ctx.has_selection {
                KeyCommand::DeleteSelected
            } else {
                KeyCommand::WarnNothingToDelete
            }
        } else {
            KeyCommand::Track
        },
        Key::Escape => if double {
            if ctx.has_selection {
                KeyCommand::Deselect
            } else {
                KeyCommand::Ignore
            }
        } else if ctx.viewport_focused && !playing {
            KeyCommand::LeaveViewportMode
        } else {
            KeyCommand::Track
        },
        Key::KeyQ => if command && !playing {
            KeyCommand::SaveAndQuit
        } else if playing {
            KeyCommand::WarnQuitWhilePlaying
        } else {
            KeyCommand::Ignore
        },
        Key::KeyC => if command && !playing {
            if ctx.has_selection {
                KeyCommand::CopySelected
            } else {
                KeyCommand::WarnNothingToCopy
            }
        } else if ctx.viewport_mode == ViewportMode::Gizmo {
            KeyCommand::SetGizmo(GizmoMode::Scale)
        } else {
            KeyCommand::Track
        },
        Key::KeyV => if command && !playing {
            if ctx.has_copied {
                KeyCommand::Paste
            } else {
                KeyCommand::WarnNothingToPaste
            }
        } else {
            KeyCommand::Track
        },
        Key::KeyS => if command {
            if !playing {
                KeyCommand::Save
            } else {
                KeyCommand::WarnSaveWhilePlaying
            }
        } else {
            KeyCommand::Track
        },
        Key::KeyZ => if command && !playing {
            if shift {
                KeyCommand::Ignore
            } else {
                KeyCommand::Undo
            }
        } else if ctx.viewport_mode == ViewportMode::Gizmo && !playing {
            KeyCommand::SetGizmo(GizmoMode::Translate)
        } else {
            KeyCommand::Track
        },
        Key::F1 => if !playing {
            if ctx.using_debug_camera {
                KeyCommand::SwitchToPlayerCamera
            } else {
                KeyCommand::SwitchToDebugCamera
            }
        } else {
            KeyCommand::Ignore
        },
        Key::KeyX => if ctx.viewport_mode == ViewportMode::Gizmo && !playing {
            KeyCommand::SetGizmo(GizmoMode::Rotate)
        } else {
            KeyCommand::Track
        },
        Key::KeyP => if !playing && command {
            KeyCommand::Play
        } else {
            KeyCommand::Ignore
        },
        _ => KeyCommand::Track,
    }
}

/// Whether a held key is one that moves the flying camera.
pub open spec fn is_movement_key(k: Key) -> bool {
    k == Key::KeyW || k == Key::KeyA || k == Key::KeyS || k == Key::KeyD || k == Key::Space || k
        == Key::ShiftLeft
}

/// The camera step a held key asks for.
pub open spec fn camera_move_spec(k: Key) -> Option<CameraMove> {
    match k {
        Key::KeyW => Some(CameraMove::Forwards),
        Key::KeyA => Some(CameraMove::Left),
        Key::KeyD => Some(CameraMove::Right),
        Key::KeyS => Some(CameraMove::Back),
        Key::ShiftLeft => Some(CameraMove::Down),
        Key::Space => Some(CameraMove::Up),
        _ => None,
    }
}

/// Whether `now` is a second press of a key last pressed at `last`
/// (times in milliseconds; an earlier `now` counts as no time passed).
pub open spec fn is_double_press(last: Option<u64>, now: u64, threshold: u64) -> bool {
    match last {
        Some(t) => (if now >= t {
            now - t
        } else {
            0
        }) <= threshold,
        None => false,
    }
}

/// The map of last press times that a list of `(key, time)` entries stands for;
/// a later entry for a key overrides an earlier one.
pub open spec fn press_map(s: Seq<(Key, u64)>) -> Map<Key, u64>
    decreases s.len(),
{
    if s.len() == 0 {
        Map::empty()
    } else {
        press_map(s.drop_last()).insert(s.last().0, s.last().1)
    }
}

/// The last press of `k` in `m`, if any.
pub open spec fn last_of(m: Map<Key, u64>, k: Key) -> Option<u64> {
    if m.dom().contains(k) {
        Some(m[k])
    } else {
        None
    }
}

/// The press memory after pressing `k` at `now` with the given threshold.
pub open spec fn after_press(m: Map<Key, u64>, k: Key, now: u64, threshold: u64) -> Map<Key, u64> {
    if is_double_press(last_of(m, k), now, threshold) {
        m.remove(k)
    } else {
        m.insert(k, now)
    }
}

/// A first press of a key is never a double press; a second press within
/// the threshold is one; and the press after a double press starts over.
pub proof fn law_double_press_cycle(m: Map<Key, u64>, k: Key, t1: u64, t2: u64, t3: u64, threshold: u64)
    requires
        !m.dom().contains(k),
        t1 <= t2 <= t1 + threshold,
    ensures
        !is_double_press(last_of(m, k), t1, threshold),
        is_double_press(last_of(after_press(m, k, t1, threshold), k), t2, threshold),
        !is_double_press(
            last_of(after_press(after_press(m, k, t1, threshold), k, t2, threshold), k),
            t3,
            threshold,
        ),
{
}

/// What each key command is asked by: the shortcuts that save, quit, copy,
/// paste, undo and play need the command modifier (and, but for the warnings,
/// the editor not to be playing); G and F switch the viewport mode only when
/// the viewport has focus; Delete deletes only a selection; a double Escape
/// deselects; F1 switches between the cameras; the gizmo keys act only in
/// gizmo mode.
pub proof fn law_key_commands(ctx: KeyContext, key: Key, command: bool, shift: bool, double: bool)
    ensures
        ({
            let c = key_command(ctx, key, command, shift, double);
            let playing = ctx.editor_state == EditorState::Playing;
            let gizmo = ctx.viewport_mode == ViewportMode::Gizmo;
            &&& (c == KeyCommand::SaveAndQuit) == (key == Key::KeyQ && command && !playing)
            &&& (c == KeyCommand::WarnQuitWhilePlaying) == (key == Key::KeyQ && playing)
            &&& (key == Key::KeyQ && !command && !playing) ==> c == KeyCommand::Ignore
            &&& (c == KeyCommand::Save) == (key == Key::KeyS && command && !playing)
            &&& (c == KeyCommand::WarnSaveWhilePlaying) == (key == Key::KeyS && command && playing)
            &&& (c == KeyCommand::Undo) == (key == Key::KeyZ && command && !shift && !playing)
            &&& (c == KeyCommand::Play) == (key == Key::KeyP && command && !playing)
            &&& (c == KeyCommand::Paste) == (key == Key::KeyV && command && !playing
                && ctx.has_copied)
            &&& (c == KeyCommand::WarnNothingToPaste) == (key == Key::KeyV && command && !playing
                && !ctx.has_copied)
            &&& (c == KeyCommand::CopySelected) == (key == Key::KeyC && command && !playing
                && ctx.has_selection)
            &&& (c == KeyCommand::WarnNothingToCopy) == (key == Key::KeyC && command && !playing
                && !ctx.has_selection)
            &&& (c == KeyCommand::DeleteSelected) == (key == Key::Delete && !playing
                && ctx.has_selection)
            &&& (c == KeyCommand::WarnNothingToDelete) == (key == Key::Delete && !playing
                && !ctx.has_selection)
            &&& (c == KeyCommand::Deselect) == (key == Key::Escape && double && ctx.has_selection)
            &&& (c == KeyCommand::EnterGizmoMode) == (key == Key::KeyG && ctx.viewport_focused
                && !playing)
            &&& (c == KeyCommand::EnterCameraMove) == (key == Key::KeyF && ctx.viewport_focused
                && !playing)
            &&& (c == KeyCommand::LeaveViewportMode) == (key == Key::Escape && !double
                && ctx.viewport_focused && !playing)
            &&& (c == KeyCommand::SwitchToPlayerCamera) == (key == Key::F1 && !playing
                && ctx.using_debug_camera)
            &&& (c == KeyCommand::SwitchToDebugCamera) == (key == Key::F1 && !playing
                && !ctx.using_debug_camera)
            &&& (c == KeyCommand::SetGizmo(GizmoMode::Scale)) == (key == Key::KeyC && !(command
                && !playing) && gizmo)
            &&& (c == KeyCommand::SetGizmo(GizmoMode::Translate)) == (key == Key::KeyZ && !(command
                && !playing) && gizmo && !playing)
            &&& (c == KeyCommand::SetGizmo(GizmoMode::Rotate)) == (key == Key::KeyX && gizmo
                && !playing)
        }),
{
}

/// A key gives a camera step exactly when it is W, A, S, D, Space or the
/// left Shift: W forwards, A left, D right, S back, left Shift down, Space up.
pub proof fn law_camera_keys(k: Key)
    ensures
        camera_move_spec(k) is Some == (k == Key::KeyW || k == Key::KeyA || k == Key::KeyS || k
            == Key::KeyD || k == Key::Space || k == Key::ShiftLeft),
        camera_move_spec(k) is Some == is_movement_key(k),
        (camera_move_spec(k) == Some(CameraMove::Forwards)) == (k == Key::KeyW),
        (camera_move_spec(k) == Some(CameraMove::Left)) == (k == Key::KeyA),
        (camera_move_spec(k) == Some(CameraMove::Right)) == (k == Key::KeyD),
        (camera_move_spec(k) == Some(CameraMove::Back)) == (k == Key::KeyS),
        (camera_move_spec(k) == Some(CameraMove::Down)) == (k == Key::ShiftLeft),
        (camera_move_spec(k) == Some(CameraMove::Up)) == (k == Key::Space),
{
}

/// A double press is one within the threshold of the key's last press, and
/// a key never pressed before never makes one.
pub proof fn law_double_press_window(last: u64, now: u64, threshold: u64)
    ensures
        now >= last ==> (is_double_press(Some(last), now, threshold) == (now - last <= threshold)),
        now < last ==> is_double_press(Some(last), now, threshold),
        !is_double_press(None, now, threshold),
{
}

/// Key commands change the viewport mode, gizmo handles and selection as
/// they say, and only those commands change them.
pub proof fn law_apply_key_command(v: ViewState, c: KeyCommand)
    ensures
        ({
            let r = apply_command_spec(v, c);
            &&& c == KeyCommand::EnterGizmoMode ==> r.viewport_mode == ViewportMode::Gizmo
            &&& c == KeyCommand::EnterCameraMove ==> r.viewport_mode == ViewportMode::CameraMove
            &&& c == KeyCommand::LeaveViewportMode ==> r.viewport_mode == ViewportMode::Idle
            &&& (c != KeyCommand::EnterGizmoMode && c != KeyCommand::EnterCameraMove && c
                != KeyCommand::LeaveViewportMode) ==> r.viewport_mode == v.viewport_mode
            &&& c == KeyCommand::Deselect ==> r.selected is None
            &&& c != KeyCommand::Deselect ==> r.selected == v.selected
            &&& (c matches KeyCommand::SetGizmo(g) ==> r.gizmo_mode == g)
            &&& !(c is SetGizmo) ==> r.gizmo_mode == v.gizmo_mode
        }),
{
}

/// Pressing a key that was not held and releasing it leaves the held keys as
/// they were; holding and releasing one key never changes whether another is held.
pub proof fn law_press_release(held: Set<Key>, k: Key, other: Key)
    requires
        other != k,
    ensures
        !held.contains(k) ==> held.insert(k).remove(k) == held,
        held.insert(k).contains(other) == held.contains(other),
        held.remove(k).contains(other) == held.contains(other),
{
    assert(!held.contains(k) ==> held.insert(k).remove(k) =~= held);
}

/// The part of the editor's state that key commands change directly.
#[derive(Clone, Copy, PartialEq, Eq, Structural, Debug)]
pub struct ViewState {
    pub viewport_mode: ViewportMode,
    pub gizmo_mode: GizmoMode,
    /// The selected entity.
    pub selected: Option<u64>,
}

/// The state after a key command: the viewport mode commands switch the
/// mode, `SetGizmo` the gizmo handles, `Deselect` drops the selection; the
/// other commands leave this state alone.
pub open spec fn apply_command_spec(v: ViewState, c: KeyCommand) -> ViewState {
    match c {
        KeyCommand::EnterGizmoMode => ViewState {
            viewport_mode: ViewportMode::Gizmo,
            gizmo_mode: v.gizmo_mode,
            selected: v.selected,
        },
        KeyCommand::EnterCameraMove => ViewState {
            viewport_mode: ViewportMode::CameraMove,
            gizmo_mode: v.gizmo_mode,
            selected: v.selected,
        },
        KeyCommand::LeaveViewportMode => ViewState {
            viewport_mode: ViewportMode::Idle,
            gizmo_mode: v.gizmo_mode,
            selected: v.selected,
        },
        KeyCommand::SetGizmo(g) => ViewState {
            viewport_mode: v.viewport_mode,
            gizmo_mode: g,
            selected: v.selected,
        },
        KeyCommand::Deselect => ViewState {
            viewport_mode: v.viewport_mode,
            gizmo_mode: v.gizmo_mode,
            selected: None,
        },
        _ => v,
    }
}

/// Applies a key command to the viewport mode, gizmo handles and selection.
pub fn apply_key_command(v: ViewState, c: KeyCommand) -> (r: ViewState)
    ensures
        r == apply_command_spec(v, c),
{
    match c {
        KeyCommand::EnterGizmoMode => ViewState {
            viewport_mode: ViewportMode::Gizmo,
            gizmo_mode: v.gizmo_mode,
            selected: v.selected,
        },
        KeyCommand::EnterCameraMove => ViewState {
            viewport_mode: ViewportMode::CameraMove,
            gizmo_mode: v.gizmo_mode,
            selected: v.selected,
        },
        KeyCommand::LeaveViewportMode => ViewState {
            viewport_mode: ViewportMode::Idle,
            gizmo_mode: v.gizmo_mode,
            selected: v.selected,
        },
        KeyCommand::SetGizmo(g) => ViewState {
            viewport_mode: v.viewport_mode,
            gizmo_mode: g,
            selected: v.selected,
        },
        KeyCommand::Deselect => ViewState {
            viewport_mode: v.viewport_mode,
            gizmo_mode: v.gizmo_mode,
            selected: None,
        },
        _ => v,
    }
}

/// The held keys in press order after pressing `k`: a key already held keeps
/// its place, a new one goes last.
pub open spec fn pressed_after(order: Seq<Key>, k: Key) -> Seq<Key> {
    if order.contains(k) {
        order
    } else {
        order.push(k)
    }
}

/// What a filter keeps was in the list.
proof fn lemma_filter_subset(s: Seq<Key>, p: spec_fn(Key) -> bool, x: Key)
    requires
        s.filter(p).contains(x),
    ensures
        s.contains(x),
    decreases s.len(),
{
    reveal_with_fuel(Seq::filter, 1);
    if s.len() > 0 {
        let q = s.drop_last();
        if q.filter(p).contains(x) {
            lemma_filter_subset(q, p, x);
            let j = q.index_of(x);
            assert(s[j] == x);
        } else {
            let f = s.filter(p);
            let j = f.index_of(x);
            assert(j == f.len() - 1);
            assert(s[s.len() - 1] == x);
        }
    }
}

/// Keeping some elements of a list with no repeats gives a list with no repeats.
proof fn lemma_filter_no_duplicates(s: Seq<Key>, p: spec_fn(Key) -> bool)
    requires
        s.no_duplicates(),
    ensures
        s.filter(p).no_duplicates(),
    decreases s.len(),
{
    reveal_with_fuel(Seq::filter, 1);
    if s.len() > 0 {
        let q = s.drop_last();
        assert(q.no_duplicates()) by {
            assert forall|a: int, b: int| 0 <= a < q.len() && 0 <= b < q.len() && a != b implies q[a] != q[b] by {
                assert(q[a] == s[a] && q[b] == s[b]);
            }
        }
        lemma_filter_no_duplicates(q, p);
        let f = q.filter(p);
        if p(s.last()) {
            assert(!f.contains(s.last())) by {
                if f.contains(s.last()) {
                    let j = f.index_of(s.last());
                    lemma_filter_subset(q, p, s.last());
                    let t = q.index_of(s.last());
                    assert(s[t] == s[s.len() - 1]);
                }
            }
            let g = f.push(s.last());
            assert forall|a: int, b: int| 0 <= a < g.len() && 0 <= b < g.len() && a != b implies g[a] != g[b] by {
                if a == f.len() {
                    assert(g[b] == f[b]);
                } else if b == f.len() {
                    assert(g[a] == f[a]);
                } else {
                    assert(g[a] == f[a] && g[b] == f[b]);
                }
            }
        }
    }
}

/// The camera step that a held key asks for.
pub fn camera_move(k: Key) -> (r: Option<CameraMove>)
    ensures
        r == camera_move_spec(k),
{
    match k {
        Key::KeyW => Some(CameraMove::Forwards),
        Key::KeyA => Some(CameraMove::Left),
        Key::KeyD => Some(CameraMove::Right),
        Key::KeyS => Some(CameraMove::Back),
        Key::ShiftLeft => Some(CameraMove::Down),
        Key::Space => Some(CameraMove::Up),
        _ => None,
    }
}

/// The decision of a key press (see [`key_command`]).
pub fn decide_key_down(ctx: KeyContext, key: Key, command: bool, shift: bool, double: bool) -> (r:
    KeyCommand)
    ensures
        r == key_command(ctx, key, command, shift, double),
{
    let playing = ctx.editor_state.is_playing();
    match key {
        Key::KeyG => if ctx.viewport_focused && !playing {
            KeyCommand::EnterGizmoMode
        } else {
            KeyCommand::Track
        },
        Key::KeyF => if ctx.viewport_focused && !playing {
            KeyCommand::EnterCameraMove
        } else {
            KeyCommand::Track
        },
        Key::Delete => if !playing {
            if ctx.has_selection {
                KeyCommand::DeleteSelected
            } else {
                KeyCommand::WarnNothingToDelete
            }
        } else {
            KeyCommand::Track
        },
        Key::Escape => if double {
            if ctx.has_selection {
                KeyCommand::Deselect
            } else {
                KeyCommand::Ignore
            }
        } else if ctx.viewport_focused && !playing {
            KeyCommand::LeaveViewportMode
        } else {
            KeyCommand::Track
        },
        Key::KeyQ => if command && !playing {
            KeyCommand::SaveAndQuit
        } else if playing {
            KeyCommand::WarnQuitWhilePlaying
        } else {
            KeyCommand::Ignore
        },
        Key::KeyC => if command && !playing {
            if ctx.has_selection {
                KeyCommand::CopySelected
            } else {
                KeyCommand::WarnNothingToCopy
            }
        } else if ctx.viewport_mode == ViewportMode::Gizmo {
            KeyCommand::SetGizmo(GizmoMode::Scale)
        } else {
            KeyCommand::Track
        },
        Key::KeyV => if command && !playing {
            if ctx.has_copied {
                KeyCommand::Paste
            } else {
                KeyCommand::WarnNothingToPaste
            }
        } else {
            KeyCommand::Track
        },
        Key::KeyS => if command {
            if !playing {
                KeyCommand::Save
            } else {
                KeyCommand::WarnSaveWhilePlaying
            }
        } else {
            KeyCommand::Track
        },
        Key::KeyZ => if command && !playing {
            if shift {
                KeyCommand::Ignore
            } else {
                KeyCommand::Undo
            }
        } else if ctx.viewport_mode == ViewportMode::Gizmo && !playing {
            KeyCommand::SetGizmo(GizmoMode::Translate)
        } else {
            KeyCommand::Track
        },
        Key::F1 => if !playing {
            if ctx.using_debug_camera {
                KeyCommand::SwitchToPlayerCamera
            } else {
                KeyCommand::SwitchToDebugCamera
            }
        } else {
            KeyCommand::Ignore
        },
        Key::KeyX => if ctx.viewport_mode == ViewportMode::Gizmo && !playing {
            KeyCommand::SetGizmo(GizmoMode::Rotate)
        } else {
            KeyCommand::Track
        },
        Key::KeyP => if !playing && command {
            KeyCommand::Play
        } else {
            KeyCommand::Ignore
        },
        _ => KeyCommand::Track,
    }
}

/// Held keys and the time each key was last pressed.
pub struct InputState {
    pressed: Vec<Key>,
    last_presses: Vec<(Key, u64)>,
    /// Two presses of one key at most this many milliseconds apart form a double press.
    double_press_threshold: u64,
}

impl InputState {
    /// Two presses of one key at most this many milliseconds apart form a double press.
    pub closed spec fn threshold(&self) -> u64 {
        self.double_press_threshold
    }

    /// Each held key is listed once.
    pub closed spec fn wf(&self) -> bool {
        self.pressed@.no_duplicates()
    }

    /// The held keys, in the order they were pressed.
    pub closed spec fn pressed_order(&self) -> Seq<Key> {
        self.pressed@
    }

    /// The set of held keys.
    pub closed spec fn held(&self) -> Set<Key> {
        self.pressed@.to_set()
    }

    /// The held keys are those of the press order, and each is listed once there.
    pub proof fn lemma_held_is_order(&self)
        ensures
            self.held() == self.pressed_order().to_set(),
            self.wf() == self.pressed_order().no_duplicates(),
    {
    }

    /// The time each key was last pressed (while no double press consumed it).
    pub closed spec fn last_press(&self) -> Map<Key, u64> {
        press_map(self.last_presses@)
    }

    /// The command modifier is held: Control, or Super where that is the command key.
    pub open spec fn command_held(&self, command_is_super: bool) -> bool {
        if command_is_super {
            self.held().contains(Key::SuperLeft) || self.held().contains(Key::SuperRight)
        } else {
            self.held().contains(Key::ControlLeft) || self.held().contains(Key::ControlRight)
        }
    }

    /// A shift key is held.
    pub open spec fn shift_held(&self) -> bool {
        self.held().contains(Key::ShiftLeft) || self.held().contains(Key::ShiftRight)
    }

    /// Nothing held, nothing pressed yet.
    pub fn new(double_press_threshold: u64) -> (r: Self)
        ensures
            r.held() == Set::<Key>::empty(),
            r.pressed_order() == Seq::<Key>::empty(),
            r.wf(),
            r.last_press() == Map::<Key, u64>::empty(),
            r.threshold() == double_press_threshold,
    {
        let r = InputState { pressed: Vec::new(), last_presses: Vec::new(), double_press_threshold };
        assert(r.held() =~= Set::<Key>::empty());
        r
    }

    /// Whether `k` is held.
    pub fn is_held(&self, k: Key) -> (r: bool)
        ensures
            r == self.held().contains(k),
    {
        let mut i: usize = 0;
        while i < self.pressed.len()
            invariant
                i <= self.pressed@.len(),
                forall|j: int| 0 <= j < i ==> self.pressed@[j] != k,
            decreases self.pressed@.len() - i,
        {
            if self.pressed[i] == k {
                assert(self.pressed@.contains(k));
                return true;
            }
            i = i + 1;
        }
        false
    }

    /// Records `k` as held.
    pub fn press(&mut self, k: Key)
        ensures
            old(self).wf() ==> final(self).wf(),
            final(self).held() == old(self).held().insert(k),
            final(self).pressed_order() == pressed_after(old(self).pressed_order(), k),
            final(self).last_press() == old(self).last_press(),
            final(self).threshold() == old(self).threshold(),
    {
        if !self.is_held(k) {
            let ghost before = self.pressed@;
            self.pressed.push(k);
            proof {
                if before.no_duplicates() {
                    assert forall|i: int, j: int|
                        0 <= i < self.pressed@.len() && 0 <= j < self.pressed@.len() && i != j
                        implies self.pressed@[i] != self.pressed@[j] by {
                        if i == before.len() as int {
                            assert(!before.contains(k));
                            assert(before[j] == self.pressed@[j]);
                        } else if j == before.len() as int {
                            assert(!before.contains(k));
                            assert(before[i] == self.pressed@[i]);
                        }
                    }
                }
            }
        }
        assert(self.held() =~= old(self).held().insert(k)) by {
            assert(self.pressed@.to_set() =~= old(self).pressed@.to_set().insert(k)) by {
                if !old(self).pressed@.contains(k) {
                    assert(self.pressed@ == old(self).pressed@.push(k));
                    assert forall|x: Key| #[trigger]
                        self.pressed@.contains(x) == (old(self).pressed@.contains(x) || x
                            == k) by {
                        if old(self).pressed@.contains(x) {
                            let j = old(self).pressed@.index_of(x);
                            assert(self.pressed@[j] == x);
                        }
                        if x == k {
                            assert(self.pressed@[self.pressed@.len() - 1] == x);
                        }
                        if self.pressed@.contains(x) && x != k {
                            let j = self.pressed@.index_of(x);
                            assert(j < old(self).pressed@.len());
                            assert(old(self).pressed@[j] == x);
                        }
                    }
                }
            }
        }
    }

    /// `key_up`: `k` is no longer held.
    pub fn release(&mut self, k: Key)
        ensures
            old(self).wf() ==> final(self).wf(),
            final(self).held() == old(self).held().remove(k),
            final(self).pressed_order() == old(self).pressed_order().filter(|x: Key| x != k),
            final(self).last_press() == old(self).last_press(),
            final(self).threshold() == old(self).threshold(),
    {
        let mut kept: Vec<Key> = Vec::new();
        let mut i: usize = 0;
        while i < self.pressed.len()
            invariant
                i <= self.pressed@.len(),
                forall|x: Key| #[trigger]
                    kept@.contains(x) == (self.pressed@.subrange(0, i as int).contains(x) && x
                        != k),
                self.pressed@.no_duplicates() ==> kept@.no_duplicates(),
                kept@ == self.pressed@.subrange(0, i as int).filter(|y: Key| y != k),
            decreases self.pressed@.len() - i,
        {
            let x = self.pressed[i];
            let ghost before = kept@;
            if x != k {
                kept.push(x);
            }
            proof {
                reveal_with_fuel(Seq::filter, 1);
                assert(self.pressed@.subrange(0, i + 1).drop_last() =~= self.pressed@.subrange(0, i as int));
                assert(self.pressed@.subrange(0, i + 1).last() == x);
                if self.pressed@.no_duplicates() && x != k {
                    assert(!self.pressed@.subrange(0, i as int).contains(x)) by {
                        if self.pressed@.subrange(0, i as int).contains(x) {
                            let j = self.pressed@.subrange(0, i as int).index_of(x);
                            assert(self.pressed@[j] == x);
                        }
                    }
                    assert(!before.contains(x));
                    assert forall|a: int, b: int|
                        0 <= a < kept@.len() && 0 <= b < kept@.len() && a != b
                        implies kept@[a] != kept@[b] by {
                        if a == before.len() as int {
                            assert(before[b] == kept@[b]);
                        } else if b == before.len() as int {
                            assert(before[a] == kept@[a]);
                        } else {
                            assert(before[a] == kept@[a]);
                            assert(before[b] == kept@[b]);
                        }
                    }
                }
                let pre = self.pressed@.subrange(0, i as int);
                let post = self.pressed@.subrange(0, i + 1);
                assert(post =~= pre.push(x));
                assert forall|y: Key| #[trigger]
                    kept@.contains(y) == (post.contains(y) && y != k) by {
                    if post.contains(y) {
                        let j = post.index_of(y);
                        if j < i {
                            assert(pre[j] == y);
                        }
                    }
                    if pre.contains(y) {
                        let j = pre.index_of(y);
                        assert(post[j] == y);
                    }
                    if kept@.contains(y) {
                        let j = kept@.index_of(y);
                        if j < before.len() {
                            assert(before[j] == y);
                        }
                    }
                    if before.contains(y) {
                        let j = before.index_of(y);
                        assert(kept@[j] == y);
                    }
                    if y == x && x != k {
                        assert(kept@[kept@.len() - 1] == y);
                        assert(post[i as int] == y);
                    }
                }
            }
            i = i + 1;
        }
        assert(self.pressed@.subrange(0, self.pressed@.len() as int) =~= self.pressed@);
        self.pressed = kept;
        assert(self.held() =~= old(self).held().remove(k));
    }

    /// When `k` was last pressed, if ever.
    pub fn last_press_of(&self, k: Key) -> (r: Option<u64>)
        ensures
            r == (if self.last_press().dom().contains(k) {
                Some(self.last_press()[k])
            } else {
                None
            }),
    {
        let mut found: Option<u64> = None;
        let mut i: usize = 0;
        while i < self.last_presses.len()
            invariant
                i <= self.last_presses@.len(),
                found == (if press_map(self.last_presses@.subrange(0, i as int)).dom().contains(
                    k,
                ) {
                    Some(press_map(self.last_presses@.subrange(0, i as int))[k])
                } else {
                    None
                }),
            decreases self.last_presses@.len() - i,
        {
            let e = self.last_presses[i];
            assert(self.last_presses@.subrange(0, i + 1).drop_last() =~= self.last_presses@.subrange(
                0,
                i as int,
            ));
            if e.0 == k {
                found = Some(e.1);
            }
            i = i + 1;
        }
        assert(self.last_presses@.subrange(0, self.last_presses@.len() as int)
            =~= self.last_presses@);
        found
    }

    fn forget_press(&mut self, k: Key)
        ensures
            old(self).wf() ==> final(self).wf(),
            final(self).last_press() == old(self).last_press().remove(k),
            final(self).held() == old(self).held(),
            final(self).pressed_order() == old(self).pressed_order(),
            final(self).threshold() == old(self).threshold(),
    {
        let mut kept: Vec<(Key, u64)> = Vec::new();
        let mut i: usize = 0;
        while i < self.last_presses.len()
            invariant
                i <= self.last_presses@.len(),
                press_map(kept@) == press_map(self.last_presses@.subrange(0, i as int)).remove(k),
            decreases self.last_presses@.len() - i,
        {
            let e = self.last_presses[i];
            let ghost before = kept@;
            assert(self.last_presses@.subrange(0, i + 1).drop_last() =~= self.last_presses@.subrange(
                0,
                i as int,
            ));
            if e.0 != k {
                kept.push(e);
                assert(kept@.drop_last() =~= before);
                assert(press_map(kept@) =~= press_map(self.last_presses@.subrange(0, i + 1)).remove(
                    k,
                ));
            } else {
                assert(press_map(kept@) =~= press_map(self.last_presses@.subrange(0, i + 1)).remove(
                    k,
                ));
            }
            i = i + 1;
        }
        assert(self.last_presses@.subrange(0, self.last_presses@.len() as int)
            =~= self.last_presses@);
        self.last_presses = kept;
    }

    /// Whether pressing `k` at `now` makes a double press. A double press
    /// forgets the earlier press; any other press is remembered as the last one.
    pub fn double_key_pressed(&mut self, k: Key, now: u64) -> (r: bool)
        ensures
            old(self).wf() ==> final(self).wf(),
            r == is_double_press(
                if old(self).last_press().dom().contains(k) {
                    Some(old(self).last_press()[k])
                } else {
                    None
                },
                now,
                old(self).threshold(),
            ),
            r ==> final(self).last_press() == old(self).last_press().remove(k),
            !r ==> final(self).last_press() == old(self).last_press().insert(k, now),
            final(self).held() == old(self).held(),
            final(self).pressed_order() == old(self).pressed_order(),
            final(self).threshold() == old(self).threshold(),
    {
        if let Some(t) = self.last_press_of(k) {
            let diff = if now >= t {
                now - t
            } else {
                0
            };
            if diff <= self.double_press_threshold {
                self.forget_press(k);
                return true;
            }
        }
        let ghost before = self.last_presses@;
        self.last_presses.push((k, now));
        assert(self.last_presses@.drop_last() =~= before);
        false
    }

    /// A key goes down: decides what it asks for (with the modifiers held
    /// before it), updates the double-press memory, and holds the key when the
    /// decision is to track it.
    pub fn key_down(&mut self, key: Key, ctx: KeyContext, now: u64) -> (r: KeyCommand)
        ensures
            old(self).wf() ==> final(self).wf(),
            r == key_command(
                ctx,
                key,
                old(self).command_held(ctx.command_is_super),
                old(self).shift_held(),
                is_double_press(
                    if old(self).last_press().dom().contains(key) {
                        Some(old(self).last_press()[key])
                    } else {
                        None
                    },
                    now,
                    old(self).threshold(),
                ),
            ),
            r == KeyCommand::Track ==> final(self).held() == old(self).held().insert(key),
            r != KeyCommand::Track ==> final(self).held() == old(self).held(),
            r == KeyCommand::Track ==> final(self).pressed_order() == pressed_after(
                old(self).pressed_order(),
                key,
            ),
            r != KeyCommand::Track ==> final(self).pressed_order() == old(self).pressed_order(),
            final(self).last_press() == (if is_double_press(
                if old(self).last_press().dom().contains(key) {
                    Some(old(self).last_press()[key])
                } else {
                    None
                },
                now,
                old(self).threshold(),
            ) {
                old(self).last_press().remove(key)
            } else {
                old(self).last_press().insert(key, now)
            }),
            final(self).threshold() == old(self).threshold(),
    {
        let command = if ctx.command_is_super {
            self.is_held(Key::SuperLeft) || self.is_held(Key::SuperRight)
        } else {
            self.is_held(Key::ControlLeft) || self.is_held(Key::ControlRight)
        };
        let shift = self.is_held(Key::ShiftLeft) || self.is_held(Key::ShiftRight);
        let double = self.double_key_pressed(key, now);
        let r = decide_key_down(ctx, key, command, shift, double);
        if r == KeyCommand::Track {
            self.press(key);
        }
        r
    }

    /// While playing, a held Escape asks to stop playing.
    pub fn stop_playing_requested(&self, state: EditorState) -> (r: bool)
        ensures
            r == (state == EditorState::Playing && self.held().contains(Key::Escape)),
    {
        state.is_playing() && self.is_held(Key::Escape)
    }

    /// The held keys, in the order they were pressed.
    pub fn held_keys(&self) -> (r: &Vec<Key>)
        ensures
            r@ == self.pressed_order(),
            r@.to_set() == self.held(),
            self.wf() ==> r@.no_duplicates(),
    {
        &self.pressed
    }

    /// The held keys that move the flying camera, in the order they were pressed.
    pub fn movement_keys(&self) -> (r: Vec<Key>)
        ensures
            r@ == self.pressed_order().filter(|k: Key| is_movement_key(k)),
            r@.to_set() == self.held().filter(|k: Key| is_movement_key(k)),
            forall|i: int| 0 <= i < r@.len() ==> is_movement_key(#[trigger] r@[i]),
            self.wf() ==> r@.no_duplicates(),
    {
        let mut r: Vec<Key> = Vec::new();
        let mut i: usize = 0;
        while i < self.pressed.len()
            invariant
                i <= self.pressed@.len(),
                forall|j: int| 0 <= j < r@.len() ==> is_movement_key(#[trigger] r@[j]),
                forall|x: Key| #[trigger]
                    r@.contains(x) == (self.pressed@.subrange(0, i as int).contains(x)
                        && is_movement_key(x)),
                r@ == self.pressed@.subrange(0, i as int).filter(|y: Key| is_movement_key(y)),
            decreases self.pressed@.len() - i,
        {
            let k = self.pressed[i];
            let ghost before = r@;
            let m = match k {
                Key::KeyW | Key::KeyA | Key::KeyS | Key::KeyD | Key::Space | Key::ShiftLeft => true,
                _ => false,
            };
            if m {
                r.push(k);
            }
            proof {
                reveal_with_fuel(Seq::filter, 1);
                assert(self.pressed@.subrange(0, i + 1).drop_last() =~= self.pressed@.subrange(0, i as int));
                assert(self.pressed@.subrange(0, i + 1).last() == k);
                let pre = self.pressed@.subrange(0, i as int);
                let post = self.pressed@.subrange(0, i + 1);
                assert(post =~= pre.push(k));
                assert forall|y: Key| #[trigger]
                    r@.contains(y) == (post.contains(y) && is_movement_key(y)) by {
                    if post.contains(y) {
                        let j = post.index_of(y);
                        if j < i {
                            assert(pre[j] == y);
                        }
                    }
                    if pre.contains(y) {
                        let j = pre.index_of(y);
                        assert(post[j] == y);
                    }
                    if r@.contains(y) {
                        let j = r@.index_of(y);
                        if j < before.len() {
                            assert(before[j] == y);
                        }
                    }
                    if before.contains(y) {
                        let j = before.index_of(y);
                        assert(r@[j] == y);
                    }
                    if y == k && m {
                        assert(r@[r@.len() - 1] == y);
                        assert(post[i as int] == y);
                    }
                }
            }
            i = i + 1;
        }
        assert(self.pressed@.subrange(0, self.pressed@.len() as int) =~= self.pressed@);
        assert(r@.to_set() =~= self.held().filter(|k: Key| is_movement_key(k)));
        proof {
            if self.wf() {
                lemma_filter_no_duplicates(self.pressed@, |y: Key| is_movement_key(y));
            }
        }
        r
    }

    /// The camera steps asked for by the held keys, in the order the keys were pressed.
    pub fn camera_moves(&self) -> (r: Vec<CameraMove>)
        ensures
            r@ == moves_of(self.pressed_order()),
            forall|m: CameraMove|
                r@.contains(m) <==> exists|k: Key| #[trigger]
                    self.held().contains(k) && camera_move_spec(k) == Some(m),
    {
        let mut r: Vec<CameraMove> = Vec::new();
        let mut i: usize = 0;
        while i < self.pressed.len()
            invariant
                i <= self.pressed@.len(),
                forall|m: CameraMove|
                    r@.contains(m) <==> exists|j: int|
                        0 <= j < i && camera_move_spec(#[trigger] self.pressed@[j]) == Some(m),
                r@ == moves_of(self.pressed@.take(i as int)),
            decreases self.pressed@.len() - i,
        {
            assert(self.pressed@.take(i + 1).drop_last() =~= self.pressed@.take(i as int));
            let ghost before = r@;
            let mv = camera_move(self.pressed[i]);
            if let Some(m0) = mv {
                r.push(m0);
            }
            proof {
                if mv is Some {
                    assert(r@ == before.push(mv->0));
                } else {
                    assert(r@ == before);
                }
                assert forall|m: CameraMove|
                    r@.contains(m) <==> exists|j: int|
                        0 <= j < i + 1 && camera_move_spec(#[trigger] self.pressed@[j]) == Some(
                            m,
                        ) by {
                    if r@.contains(m) {
                        let q = r@.index_of(m);
                        if q < before.len() {
                            assert(before[q] == m);
                            assert(before.contains(m));
                            let j = choose|j: int|
                                0 <= j < i && camera_move_spec(#[trigger] self.pressed@[j])
                                    == Some(m);
                            assert(0 <= j < i + 1 && camera_move_spec(self.pressed@[j]) == Some(m));
                        } else {
                            assert(camera_move_spec(self.pressed@[i as int]) == Some(m));
                        }
                    }
                    if exists|j: int|
                        0 <= j < i + 1 && camera_move_spec(#[trigger] self.pressed@[j]) == Some(
                            m,
                        ) {
                        let j = choose|j: int|
                            0 <= j < i + 1 && camera_move_spec(#[trigger] self.pressed@[j])
                                == Some(m);
                        if j < i {
                            assert(before.contains(m));
                            let q = before.index_of(m);
                            assert(r@[q] == m);
                        } else {
                            assert(r@[r@.len() - 1] == m);
                        }
                    }
                }
            }
            i = i + 1;
        }
        assert(self.pressed@.take(self.pressed@.len() as int) =~= self.pressed@);
        proof {
            assert forall|m: CameraMove|
                r@.contains(m) <==> exists|k: Key| #[trigger]
                    self.held().contains(k) && camera_move_spec(k) == Some(m) by {
                if r@.contains(m) {
                    let j = choose|j: int|
                        0 <= j < self.pressed@.len() && camera_move_spec(
                            #[trigger] self.pressed@[j],
                        ) == Some(m);
                    assert(self.held().contains(self.pressed@[j]));
                }
                if exists|k: Key| #[trigger]
                    self.held().contains(k) && camera_move_spec(k) == Some(m) {
                    let k = choose|k: Key| #[trigger]
                        self.held().contains(k) && camera_move_spec(k) == Some(m);
                    let j = self.pressed@.index_of(k);
                    assert(camera_move_spec(self.pressed@[j]) == Some(m));
                }
            }
        }
        r
    }
}

} // verus!
