//! The editor's pending signal: what a signal asks the editor to do, given
//! what the world holds, and what the signal becomes once that work is done.
//! Entities are named by their id bits; the copied entity is `S`.
use crate::editor::{EntityType, PendingSpawn2};
use crate::input::KeyCommand;
use crate::text::{concat2, owned};
use vstd::prelude::*;

verus! {

/// A component that can be taken off an entity.
#[derive(Clone, Copy, PartialEq, Eq, Structural, Debug)]
pub enum ComponentKind {
    Script,
    /// A camera, with or without a follow target.
    Camera { with_follow_target: bool },
}

/// A request waiting for the editor to handle it.
pub enum Signal<S> {
    /// Nothing is asked.
    Idle,
    /// An entity was copied and waits to be pasted.
    Copied(S),
    /// Paste the copied entity.
    Paste(S),
    /// Delete the selected entity.
    Delete,
    /// Undo the newest undoable action.
    Undo,
    /// Move a script into the project and attach it to the selected entity.
    AttachScript { script_path: String, script_name: String },
    /// Attach a newly created script to the selected entity.
    CreateAndAttachScript { script_path: String, script_name: String },
    /// Take the script off the selected entity.
    RemoveScript,
    /// Open the selected entity's script.
    EditScript,
    /// Enter play mode.
    Play,
    /// Leave play mode.
    StopPlaying,
    /// Make the player camera follow this entity.
    SetPlayerTarget(u64),
    /// Make the player camera follow nothing.
    ClearPlayerTarget,
    /// Offer the components that can be added to an entity of this kind.
    AddComponent(u64, EntityType),
    /// Take a component off an entity.
    RemoveComponent(u64, ComponentKind),
    /// Offer the kinds of entity that can be created.
    CreateEntity,
    /// Write the world's entities to the log.
    LogEntities,
    /// Spawn a new entity of this kind.
    Spawn(PendingSpawn2),
}

/// What the editor knows about the world when it handles a signal.
#[derive(Clone, Copy, PartialEq, Eq, Structural, Debug)]
pub struct SignalFacts {
    /// The selected entity.
    pub selected: Option<u64>,
    /// Whether the selected entity is the viewport's debug camera.
    pub selected_is_viewport_camera: bool,
    /// Whether the undo stack holds an action.
    pub can_undo: bool,
    /// Whether a player camera has a follow target (needed to play).
    pub has_player_camera_target: bool,
    /// The player camera, if there is one.
    pub player_camera: Option<u64>,
    /// Whether the entity named by `SetPlayerTarget` is a model.
    pub target_is_model: bool,
}

/// The work a signal asks for.
#[derive(Clone, Copy, PartialEq, Eq, Structural, Debug)]
pub enum SignalWork {
    Nothing,
    /// Queue the pasted entity for spawning.
    SpawnPasted,
    /// Warn that the viewport camera cannot be deleted.
    RefuseViewportCameraDelete,
    Despawn(u64),
    UndoLast,
    WarnNothingToUndo,
    MoveAndAttachScript(u64),
    FailAttachWithoutSelection,
    AttachNewScript(u64),
    WarnNoEntityForNewScript,
    RemoveScriptOf(u64),
    WarnNoEntityForRemoveScript,
    OpenScriptOf(u64),
    WarnNoEntityToEditScript,
    /// Back up the scene, switch to the player camera and start the scripts.
    EnterPlayMode,
    FailPlayWithoutPlayerCamera,
    /// Restore the scene and switch back to the debug camera.
    LeavePlayMode,
    SetFollowTarget { camera: u64, target: u64 },
    SkipFollowTarget,
    ClearFollowTarget(Option<u64>),
    ShowAddComponent(u64, EntityType),
    RemoveComponentOf(u64, ComponentKind),
    ShowCreateEntity,
    LogEntities,
    SpawnNew(PendingSpawn2),
}

/// A choice made in one of the signal's windows.
#[derive(Clone, Copy, PartialEq, Eq, Structural, Debug)]
pub enum WindowChoice {
    /// "Scripting" in the add-component window.
    Scripting,
    /// "Camera" in the add-component window.
    Camera,
    /// "Model" in the add-entity window.
    Model,
    /// A kind of entity in the add-entity window.
    Spawn(PendingSpawn2),
}

/// How the work went.
#[derive(Clone, Copy, PartialEq, Eq, Structural, Debug)]
pub enum WorkOutcome {
    Done,
    DespawnFailed,
    ScriptMoveFailed,
    ScriptAttachFailed,
    BackupFailed,
    ScriptReadFailed,
    ScriptLoadFailed,
    /// The window is still open and nothing was chosen.
    WindowOpen,
    WindowClosed,
    Picked(WindowChoice),
}

/// What the signal becomes.
#[derive(Clone, Copy, PartialEq, Eq, Structural, Debug)]
pub enum SignalNext {
    /// It stays, to be handled again next frame.
    Keep,
    /// It is done.
    Clear,
    /// The pasted entity stays copied, ready for another paste.
    BecomeCopied,
    StopPlaying,
    Spawn(PendingSpawn2),
}

/// Why handling a signal failed.
#[derive(Clone, Copy, PartialEq, Eq, Structural, Debug)]
pub enum SignalError {
    DeleteFailed,
    ScriptMoveFailed,
    NoEntitySelected,
    /// A moved script could not be attached to the selected entity.
    ScriptAttachFailed,
    /// A newly created script could not be attached to the selected entity.
    NewScriptAttachFailed,
    BackupFailed,
    ScriptReadFailed,
    ScriptLoadFailed,
    NoPlayerCamera,
}

/// The message reported for a failed signal. `detail` is what the failing
/// work reported (the outside error, the script or entity it concerns); the
/// refusals that need no detail ignore it.
pub open spec fn signal_error_text(e: SignalError, detail: Seq<char>) -> Seq<char> {
    match e {
        SignalError::DeleteFailed => "Failed to delete entity: "@ + detail,
        SignalError::ScriptMoveFailed => "Move failed: "@ + detail,
        SignalError::NoEntitySelected => "AttachScript requested but no entity is selected"@,
        SignalError::ScriptAttachFailed => "Failed to attach script to entity "@ + detail,
        SignalError::NewScriptAttachFailed => "Failed to attach new script: "@ + detail,
        SignalError::BackupFailed => "Failed to create play mode backup: "@ + detail,
        SignalError::ScriptReadFailed => "Unable to read script "@ + detail,
        SignalError::ScriptLoadFailed => "Failed to load script "@ + detail,
        SignalError::NoPlayerCamera => "Unable to build: Player camera not attached to an entity"@,
    }
}

/// The message reported for a failed signal (see [`signal_error_text`]).
pub fn signal_error_message(e: SignalError, detail: &str) -> (r: String)
    ensures
        r@ == signal_error_text(e, detail@),
{
    match e {
        SignalError::DeleteFailed => concat2("Failed to delete entity: ", detail),
        SignalError::ScriptMoveFailed => concat2("Move failed: ", detail),
        SignalError::NoEntitySelected => owned("AttachScript requested but no entity is selected"),
        SignalError::ScriptAttachFailed => concat2("Failed to attach script to entity ", detail),
        SignalError::NewScriptAttachFailed => concat2("Failed to attach new script: ", detail),
        SignalError::BackupFailed => concat2("Failed to create play mode backup: ", detail),
        SignalError::ScriptReadFailed => concat2("Unable to read script ", detail),
        SignalError::ScriptLoadFailed => concat2("Failed to load script ", detail),
        SignalError::NoPlayerCamera => owned("Unable to build: Player camera not attached to an entity"),
    }
}

/// The work `signal` asks for, given `f`.
pub open spec fn plan_spec<S>(signal: Signal<S>, f: SignalFacts) -> SignalWork {
    match signal {
        Signal::Idle => SignalWork::Nothing,
        Signal::Copied(_) => SignalWork::Nothing,
        Signal::Paste(_) => SignalWork::SpawnPasted,
        Signal::Delete => match f.selected {
            Some(e) => if f.selected_is_viewport_camera {
                SignalWork::RefuseViewportCameraDelete
            } else {
                SignalWork::Despawn(e)
            },
            None => SignalWork::Nothing,
        },
        Signal::Undo => if f.can_undo {
            SignalWork::UndoLast
        } else {
            SignalWork::WarnNothingToUndo
        },
        Signal::AttachScript { .. } => match f.selected {
            Some(e) => SignalWork::MoveAndAttachScript(e),
            None => SignalWork::FailAttachWithoutSelection,
        },
        Signal::CreateAndAttachScript { .. } => match f.selected {
            Some(e) => SignalWork::AttachNewScript(e),
            None => SignalWork::WarnNoEntityForNewScript,
        },
        Signal::RemoveScript => match f.selected {
            Some(e) => SignalWork::RemoveScriptOf(e),
            None => SignalWork::WarnNoEntityForRemoveScript,
        },
        Signal::EditScript => match f.selected {
            Some(e) => SignalWork::OpenScriptOf(e),
            None => SignalWork::WarnNoEntityToEditScript,
        },
        Signal::Play => if f.has_player_camera_target {
            SignalWork::EnterPlayMode
        } else {
            SignalWork::FailPlayWithoutPlayerCamera
        },
        Signal::StopPlaying => SignalWork::LeavePlayMode,
        Signal::SetPlayerTarget(t) => match f.player_camera {
            Some(c) => if f.target_is_model {
                SignalWork::SetFollowTarget { camera: c, target: t }
            } else {
                SignalWork::SkipFollowTarget
            },
            None => SignalWork::SkipFollowTarget,
        },
        Signal::ClearPlayerTarget => SignalWork::ClearFollowTarget(f.player_camera),
        Signal::AddComponent(e, k) => SignalWork::ShowAddComponent(e, k),
        Signal::RemoveComponent(e, k) => SignalWork::RemoveComponentOf(e, k),
        Signal::CreateEntity => SignalWork::ShowCreateEntity,
        Signal::LogEntities => SignalWork::LogEntities,
        Signal::Spawn(k) => SignalWork::SpawnNew(k),
    }
}

/// The work the pending signal asks for this frame.
pub fn plan_signal<S>(signal: &Signal<S>, f: &SignalFacts) -> (w: SignalWork)
    ensures
        w == plan_spec(*signal, *f),
{
    match signal {
        Signal::Idle => SignalWork::Nothing,
        Signal::Copied(_) => SignalWork::Nothing,
        Signal::Paste(_) => SignalWork::SpawnPasted,
        Signal::Delete => match f.selected {
            Some(e) => if f.selected_is_viewport_camera {
                SignalWork::RefuseViewportCameraDelete
            } else {
                SignalWork::Despawn(e)
            },
            None => SignalWork::Nothing,
        },
        Signal::Undo => if f.can_undo {
            SignalWork::UndoLast
        } else {
            SignalWork::WarnNothingToUndo
        },
        Signal::AttachScript { .. } => match f.selected {
            Some(e) => SignalWork::MoveAndAttachScript(e),
            None => SignalWork::FailAttachWithoutSelection,
        },
        Signal::CreateAndAttachScript { .. } => match f.selected {
            Some(e) => SignalWork::AttachNewScript(e),
            None => SignalWork::WarnNoEntityForNewScript,
        },
        Signal::RemoveScript => match f.selected {
            Some(e) => SignalWork::RemoveScriptOf(e),
            None => SignalWork::WarnNoEntityForRemoveScript,
        },
        Signal::EditScript => match f.selected {
            Some(e) => SignalWork::OpenScriptOf(e),
            None => SignalWork::WarnNoEntityToEditScript,
        },
        Signal::Play => if f.has_player_camera_target {
            SignalWork::EnterPlayMode
        } else {
            SignalWork::FailPlayWithoutPlayerCamera
        },
        Signal::StopPlaying => SignalWork::LeavePlayMode,
        Signal::SetPlayerTarget(t) => match f.player_camera {
            Some(c) => if f.target_is_model {
                SignalWork::SetFollowTarget { camera: c, target: *t }
            } else {
                SignalWork::SkipFollowTarget
            },
            None => SignalWork::SkipFollowTarget,
        },
        Signal::ClearPlayerTarget => SignalWork::ClearFollowTarget(f.player_camera),
        Signal::AddComponent(e, k) => SignalWork::ShowAddComponent(*e, *k),
        Signal::RemoveComponent(e, k) => SignalWork::RemoveComponentOf(*e, *k),
        Signal::CreateEntity => SignalWork::ShowCreateEntity,
        Signal::LogEntities => SignalWork::LogEntities,
        Signal::Spawn(k) => SignalWork::SpawnNew(*k),
    }
}

/// What a window's outcome makes of its signal: closing it or choosing in it
/// ends the signal, an open window keeps it.
pub open spec fn window_next(o: WorkOutcome) -> SignalNext {
    match o {
        WorkOutcome::WindowClosed => SignalNext::Clear,
        WorkOutcome::Picked(_) => SignalNext::Clear,
        _ => SignalNext::Keep,
    }
}

/// What the signal becomes, and the error reported, once `w` went as `o` says.
pub open spec fn settle_spec(w: SignalWork, o: WorkOutcome) -> (SignalNext, Option<SignalError>) {
    match w {
        SignalWork::Nothing => (SignalNext::Keep, None),
        SignalWork::SpawnPasted => (SignalNext::BecomeCopied, None),
        SignalWork::Despawn(_) => if o == WorkOutcome::DespawnFailed {
            (SignalNext::Clear, Some(SignalError::DeleteFailed))
        } else {
            (SignalNext::Clear, None)
        },
        SignalWork::MoveAndAttachScript(_) => match o {
            WorkOutcome::ScriptMoveFailed => (SignalNext::Keep, Some(SignalError::ScriptMoveFailed)),
            WorkOutcome::ScriptAttachFailed => (
                SignalNext::Clear,
                Some(SignalError::ScriptAttachFailed),
            ),
            _ => (SignalNext::Clear, None),
        },
        SignalWork::FailAttachWithoutSelection => (SignalNext::Keep, Some(SignalError::NoEntitySelected)),
        SignalWork::AttachNewScript(_) => if o == WorkOutcome::ScriptAttachFailed {
            (SignalNext::Clear, Some(SignalError::NewScriptAttachFailed))
        } else {
            (SignalNext::Clear, None)
        },
        SignalWork::EnterPlayMode => match o {
            WorkOutcome::BackupFailed => (SignalNext::Clear, Some(SignalError::BackupFailed)),
            WorkOutcome::ScriptReadFailed => (SignalNext::Clear, Some(SignalError::ScriptReadFailed)),
            WorkOutcome::ScriptLoadFailed => (
                SignalNext::StopPlaying,
                Some(SignalError::ScriptLoadFailed),
            ),
            _ => (SignalNext::Clear, None),
        },
        SignalWork::FailPlayWithoutPlayerCamera => (SignalNext::Keep, Some(SignalError::NoPlayerCamera)),
        SignalWork::ShowAddComponent(_, _) => (window_next(o), None),
        SignalWork::RemoveComponentOf(_, k) => match k {
            ComponentKind::Script => (SignalNext::Clear, None),
            ComponentKind::Camera { .. } => (SignalNext::Keep, None),
        },
        SignalWork::ShowCreateEntity => match o {
            WorkOutcome::Picked(WindowChoice::Spawn(k)) => (SignalNext::Spawn(k), None),
            _ => (window_next(o), None),
        },
        _ => (SignalNext::Clear, None),
    }
}

/// What the signal becomes, and the error to report, after its work.
pub fn settle_signal(w: SignalWork, o: WorkOutcome) -> (r: (SignalNext, Option<SignalError>))
    ensures
        r == settle_spec(w, o),
{
    match w {
        SignalWork::Nothing => (SignalNext::Keep, None),
        SignalWork::SpawnPasted => (SignalNext::BecomeCopied, None),
        SignalWork::Despawn(_) => match o {
            WorkOutcome::DespawnFailed => (SignalNext::Clear, Some(SignalError::DeleteFailed)),
            _ => (SignalNext::Clear, None),
        },
        SignalWork::MoveAndAttachScript(_) => match o {
            WorkOutcome::ScriptMoveFailed => (SignalNext::Keep, Some(SignalError::ScriptMoveFailed)),
            WorkOutcome::ScriptAttachFailed => (
                SignalNext::Clear,
                Some(SignalError::ScriptAttachFailed),
            ),
            _ => (SignalNext::Clear, None),
        },
        SignalWork::FailAttachWithoutSelection => (SignalNext::Keep, Some(SignalError::NoEntitySelected)),
        SignalWork::AttachNewScript(_) => match o {
            WorkOutcome::ScriptAttachFailed => (
                SignalNext::Clear,
                Some(SignalError::NewScriptAttachFailed),
            ),
            _ => (SignalNext::Clear, None),
        },
        SignalWork::EnterPlayMode => match o {
            WorkOutcome::BackupFailed => (SignalNext::Clear, Some(SignalError::BackupFailed)),
            WorkOutcome::ScriptReadFailed => (SignalNext::Clear, Some(SignalError::ScriptReadFailed)),
            WorkOutcome::ScriptLoadFailed => (
                SignalNext::StopPlaying,
                Some(SignalError::ScriptLoadFailed),
            ),
            _ => (SignalNext::Clear, None),
        },
        SignalWork::FailPlayWithoutPlayerCamera => (SignalNext::Keep, Some(SignalError::NoPlayerCamera)),
        SignalWork::ShowAddComponent(_, _) => (window_outcome(o), None),
        SignalWork::RemoveComponentOf(_, k) => match k {
            ComponentKind::Script => (SignalNext::Clear, None),
            ComponentKind::Camera { .. } => (SignalNext::Keep, None),
        },
        SignalWork::ShowCreateEntity => match o {
            WorkOutcome::Picked(WindowChoice::Spawn(k)) => (SignalNext::Spawn(k), None),
            _ => (window_outcome(o), None),
        },
        _ => (SignalNext::Clear, None),
    }
}

fn window_outcome(o: WorkOutcome) -> (r: SignalNext)
    ensures
        r == window_next(o),
{
    match o {
        WorkOutcome::WindowClosed => SignalNext::Clear,
        WorkOutcome::Picked(_) => SignalNext::Clear,
        _ => SignalNext::Keep,
    }
}

/// The signal that `next` makes of `signal`.
pub open spec fn advance_spec<S>(signal: Signal<S>, next: SignalNext) -> Signal<S> {
    match next {
        SignalNext::Keep => signal,
        SignalNext::Clear => Signal::Idle,
        SignalNext::BecomeCopied => match signal {
            Signal::Paste(x) => Signal::Copied(x),
            _ => signal,
        },
        SignalNext::StopPlaying => Signal::StopPlaying,
        SignalNext::Spawn(k) => Signal::Spawn(k),
    }
}

/// Replaces the pending signal as `next` says.
pub fn advance_signal<S>(signal: Signal<S>, next: SignalNext) -> (r: Signal<S>)
    ensures
        r == advance_spec(signal, next),
{
    match next {
        SignalNext::Keep => signal,
        SignalNext::Clear => Signal::Idle,
        SignalNext::BecomeCopied => match signal {
            Signal::Paste(x) => Signal::Copied(x),
            other => other,
        },
        SignalNext::StopPlaying => Signal::StopPlaying,
        SignalNext::Spawn(k) => Signal::Spawn(k),
    }
}

/// The pending signal after a key command: delete, undo and play ask for
/// themselves; a copy makes the copied entity (when one could be read from
/// the world) the copied signal; a paste turns a copied entity into a paste;
/// every other command leaves the signal as it was.
pub open spec fn signal_after_key_spec<S>(c: KeyCommand, signal: Signal<S>, copied: Option<S>) -> Signal<S> {
    match c {
        KeyCommand::DeleteSelected => Signal::Delete,
        KeyCommand::Undo => Signal::Undo,
        KeyCommand::Play => Signal::Play,
        KeyCommand::CopySelected => match copied {
            Some(x) => Signal::Copied(x),
            None => signal,
        },
        KeyCommand::Paste => match signal {
            Signal::Copied(x) => Signal::Paste(x),
            _ => signal,
        },
        _ => signal,
    }
}

/// Replaces the pending signal as a key command asks.
pub fn signal_after_key<S>(c: KeyCommand, signal: Signal<S>, copied: Option<S>) -> (r: Signal<S>)
    ensures
        r == signal_after_key_spec(c, signal, copied),
{
    match c {
        KeyCommand::DeleteSelected => Signal::Delete,
        KeyCommand::Undo => Signal::Undo,
        KeyCommand::Play => Signal::Play,
        KeyCommand::CopySelected => match copied {
            Some(x) => Signal::Copied(x),
            None => signal,
        },
        KeyCommand::Paste => match signal {
            Signal::Copied(x) => Signal::Paste(x),
            other => other,
        },
        _ => signal,
    }
}

/// A paste leaves the pasted entity copied, so it can be pasted again.
pub proof fn law_paste_keeps_copy<S>(x: S, f: SignalFacts, o: WorkOutcome)
    ensures
        advance_spec(Signal::Paste(x), settle_spec(plan_spec(Signal::Paste(x), f), o).0)
            == Signal::Copied(x),
{
}

/// The viewport's camera is never despawned, and a delete of it is refused
/// and ends without error.
pub proof fn law_viewport_camera_not_deleted<S>(f: SignalFacts, o: WorkOutcome)
    requires
        f.selected is Some,
        f.selected_is_viewport_camera,
    ensures
        plan_spec(Signal::<S>::Delete, f) == SignalWork::RefuseViewportCameraDelete,
        settle_spec(plan_spec(Signal::<S>::Delete, f), o) == (SignalNext::Clear, None::<SignalError>),
{
}

/// Play mode needs a player camera with a target: without one, playing fails
/// with "Unable to build: Player camera not attached to an entity" and the
/// request stays pending.
pub proof fn law_play_needs_player_camera<S>(f: SignalFacts, o: WorkOutcome, detail: Seq<char>)
    requires
        !f.has_player_camera_target,
    ensures
        settle_spec(plan_spec(Signal::<S>::Play, f), o) == (
            SignalNext::Keep,
            Some(SignalError::NoPlayerCamera),
        ),
        signal_error_text(SignalError::NoPlayerCamera, detail)
            == "Unable to build: Player camera not attached to an entity"@,
{
}

/// A signal whose work fails never becomes anything but itself, nothing, or
/// the request to stop playing.
pub proof fn law_failure_next<S>(signal: Signal<S>, f: SignalFacts, o: WorkOutcome)
    requires
        settle_spec(plan_spec(signal, f), o).1 is Some,
    ensures
        ({
            let n = settle_spec(plan_spec(signal, f), o).0;
            n == SignalNext::Keep || n == SignalNext::Clear || n == SignalNext::StopPlaying
        }),
{
}

/// Copying an entity and then pasting it asks to paste that entity, and
/// once the paste is handled the entity stays copied.
pub proof fn law_copy_then_paste<S>(signal: Signal<S>, x: S, f: SignalFacts, o: WorkOutcome)
    ensures
        signal_after_key_spec(
            KeyCommand::Paste,
            signal_after_key_spec(KeyCommand::CopySelected, signal, Some(x)),
            None,
        ) == Signal::Paste(x),
        advance_spec(
            Signal::Paste(x),
            settle_spec(plan_spec(Signal::Paste(x), f), o).0,
        ) == Signal::Copied(x),
{
}

/// What each signal's work is asked by: play mode is entered exactly when
/// play is requested and a player camera has a follow target; only the
/// selected entity is despawned, only on a delete request, and never the
/// viewport camera; an undo runs exactly when asked and the stack holds an
/// action; scripts are attached to, removed from or opened on the selected
/// entity only; the follow target goes only to the player camera and only
/// when the target is a model.
pub proof fn law_plan_requests<S>(signal: Signal<S>, f: SignalFacts)
    ensures
        ({
            let w = plan_spec(signal, f);
            &&& (w == SignalWork::EnterPlayMode) == (signal is Play && f.has_player_camera_target)
            &&& (w == SignalWork::FailPlayWithoutPlayerCamera) == (signal is Play
                && !f.has_player_camera_target)
            &&& (w == SignalWork::LeavePlayMode) == (signal is StopPlaying)
            &&& (w is Despawn) == (signal is Delete && f.selected is Some
                && !f.selected_is_viewport_camera)
            &&& (w matches SignalWork::Despawn(e) ==> f.selected == Some(e))
            &&& (w == SignalWork::RefuseViewportCameraDelete) == (signal is Delete && f.selected is Some
                && f.selected_is_viewport_camera)
            &&& (w == SignalWork::UndoLast) == (signal is Undo && f.can_undo)
            &&& (w == SignalWork::WarnNothingToUndo) == (signal is Undo && !f.can_undo)
            &&& (w == SignalWork::SpawnPasted) == (signal is Paste)
            &&& (w is MoveAndAttachScript) == (signal is AttachScript && f.selected is Some)
            &&& (w == SignalWork::FailAttachWithoutSelection) == (signal is AttachScript
                && f.selected is None)
            &&& (w is AttachNewScript) == (signal is CreateAndAttachScript && f.selected is Some)
            &&& (w is RemoveScriptOf) == (signal is RemoveScript && f.selected is Some)
            &&& (w is OpenScriptOf) == (signal is EditScript && f.selected is Some)
            &&& (w matches SignalWork::MoveAndAttachScript(e) ==> f.selected == Some(e))
            &&& (w matches SignalWork::AttachNewScript(e) ==> f.selected == Some(e))
            &&& (w matches SignalWork::RemoveScriptOf(e) ==> f.selected == Some(e))
            &&& (w matches SignalWork::OpenScriptOf(e) ==> f.selected == Some(e))
            &&& (w is SetFollowTarget) == (signal is SetPlayerTarget && f.player_camera is Some
                && f.target_is_model)
            &&& (w matches SignalWork::SetFollowTarget { camera, target } ==> f.player_camera
                == Some(camera) && signal == Signal::<S>::SetPlayerTarget(target))
            &&& (w == SignalWork::ShowCreateEntity) == (signal is CreateEntity)
            &&& (w == SignalWork::LogEntities) == (signal is LogEntities)
            &&& (w == SignalWork::Nothing) == (signal is Idle || signal is Copied || (signal is Delete
                && f.selected is None))
        }),
{
}

/// An error is reported exactly when the work failed as the error says (or
/// was refused for want of a selection or a player camera); work that went
/// well reports no error; a signal is only ever kept after a failed move of
/// a script, a refused attach or play, an open window, waiting for a
/// selection to delete, or removing a camera component.
pub proof fn law_settle_errors(w: SignalWork, o: WorkOutcome)
    ensures
        ({
            let (n, e) = settle_spec(w, o);
            &&& (e == Some(SignalError::DeleteFailed)) == (w is Despawn && o
                == WorkOutcome::DespawnFailed)
            &&& (e == Some(SignalError::ScriptMoveFailed)) == (w is MoveAndAttachScript && o
                == WorkOutcome::ScriptMoveFailed)
            &&& (e == Some(SignalError::ScriptAttachFailed)) == (w is MoveAndAttachScript && o
                == WorkOutcome::ScriptAttachFailed)
            &&& (e == Some(SignalError::NewScriptAttachFailed)) == (w is AttachNewScript && o
                == WorkOutcome::ScriptAttachFailed)
            &&& (e == Some(SignalError::BackupFailed)) == (w == SignalWork::EnterPlayMode && o
                == WorkOutcome::BackupFailed)
            &&& (e == Some(SignalError::ScriptReadFailed)) == (w == SignalWork::EnterPlayMode && o
                == WorkOutcome::ScriptReadFailed)
            &&& (e == Some(SignalError::ScriptLoadFailed)) == (w == SignalWork::EnterPlayMode && o
                == WorkOutcome::ScriptLoadFailed)
            &&& (e == Some(SignalError::NoEntitySelected)) == (w
                == SignalWork::FailAttachWithoutSelection)
            &&& (e == Some(SignalError::NoPlayerCamera)) == (w
                == SignalWork::FailPlayWithoutPlayerCamera)
            &&& o == WorkOutcome::Done && w != SignalWork::FailAttachWithoutSelection && w
                != SignalWork::FailPlayWithoutPlayerCamera ==> e is None
            &&& (n == SignalNext::StopPlaying) == (w == SignalWork::EnterPlayMode && o
                == WorkOutcome::ScriptLoadFailed)
            &&& (n == SignalNext::BecomeCopied) == (w == SignalWork::SpawnPasted)
            &&& n == SignalNext::Keep ==> (w == SignalWork::Nothing || (w is MoveAndAttachScript
                && o == WorkOutcome::ScriptMoveFailed) || w == SignalWork::FailAttachWithoutSelection
                || w == SignalWork::FailPlayWithoutPlayerCamera || w is ShowAddComponent
                || w == SignalWork::ShowCreateEntity || (w matches SignalWork::RemoveComponentOf(
                _,
                k,
            ) && k is Camera))
        }),
{
}

/// A request moves the signal to itself: delete, undo and play ask for
/// themselves, and a paste after a copy pastes the copied entity.
pub proof fn law_key_requests<S>(signal: Signal<S>, copied: Option<S>, c: KeyCommand)
    ensures
        c == KeyCommand::DeleteSelected ==> signal_after_key_spec(c, signal, copied) is Delete,
        c == KeyCommand::Undo ==> signal_after_key_spec(c, signal, copied) is Undo,
        c == KeyCommand::Play ==> signal_after_key_spec(c, signal, copied) is Play,
        copied matches Some(x) ==> c == KeyCommand::CopySelected ==> signal_after_key_spec(
            c,
            signal,
            copied,
        ) == Signal::Copied(x),
        signal matches Signal::Copied(x) ==> c == KeyCommand::Paste ==> signal_after_key_spec(
            c,
            signal,
            copied,
        ) == Signal::Paste(x),
        (c != KeyCommand::DeleteSelected && c != KeyCommand::Undo && c != KeyCommand::Play && c
            != KeyCommand::CopySelected && c != KeyCommand::Paste) ==> signal_after_key_spec(
            c,
            signal,
            copied,
        ) == signal,
{
}

} // verus!
