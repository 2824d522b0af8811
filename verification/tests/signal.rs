use eucalyptus::editor::{EntityType, PendingSpawn2};
use eucalyptus::input::KeyCommand;
use eucalyptus::signal::{
    advance_signal, plan_signal, settle_signal, signal_after_key, signal_error_message, ComponentKind, Signal, SignalError, SignalFacts,
    SignalNext, SignalWork, WindowChoice, WorkOutcome,
};

fn facts() -> SignalFacts {
    SignalFacts {
        selected: Some(4),
        selected_is_viewport_camera: false,
        can_undo: true,
        has_player_camera_target: true,
        player_camera: Some(2),
        target_is_model: true,
    }
}

#[test]
fn paste_spawns_and_keeps_copy() {
    let s: Signal<&str> = Signal::Paste("cube");
    let w = plan_signal(&s, &facts());
    assert_eq!(w, SignalWork::SpawnPasted);
    let (next, err) = settle_signal(w, WorkOutcome::Done);
    assert_eq!(next, SignalNext::BecomeCopied);
    assert_eq!(err, None);
    assert!(matches!(advance_signal(s, next), Signal::Copied("cube")));
}

#[test]
fn delete_selected_entity() {
    let s: Signal<()> = Signal::Delete;
    assert_eq!(plan_signal(&s, &facts()), SignalWork::Despawn(4));
    assert_eq!(
        settle_signal(SignalWork::Despawn(4), WorkOutcome::Done),
        (SignalNext::Clear, None)
    );
    assert_eq!(
        settle_signal(SignalWork::Despawn(4), WorkOutcome::DespawnFailed),
        (SignalNext::Clear, Some(SignalError::DeleteFailed))
    );
}

#[test]
fn delete_refuses_viewport_camera() {
    let f = SignalFacts { selected_is_viewport_camera: true, ..facts() };
    let s: Signal<()> = Signal::Delete;
    let w = plan_signal(&s, &f);
    assert_eq!(w, SignalWork::RefuseViewportCameraDelete);
    assert_eq!(settle_signal(w, WorkOutcome::Done), (SignalNext::Clear, None));
}

#[test]
fn delete_without_selection_waits() {
    let f = SignalFacts { selected: None, ..facts() };
    let s: Signal<()> = Signal::Delete;
    let w = plan_signal(&s, &f);
    assert_eq!(w, SignalWork::Nothing);
    let (next, err) = settle_signal(w, WorkOutcome::Done);
    assert_eq!((next, err), (SignalNext::Keep, None));
    assert!(matches!(advance_signal(s, next), Signal::Delete));
}

#[test]
fn undo_with_and_without_actions() {
    let s: Signal<()> = Signal::Undo;
    assert_eq!(plan_signal(&s, &facts()), SignalWork::UndoLast);
    let f = SignalFacts { can_undo: false, ..facts() };
    assert_eq!(plan_signal(&s, &f), SignalWork::WarnNothingToUndo);
    assert_eq!(settle_signal(SignalWork::WarnNothingToUndo, WorkOutcome::Done).0, SignalNext::Clear);
}

#[test]
fn attach_script_outcomes() {
    let s: Signal<()> = Signal::AttachScript {
        script_path: "a.rhai".to_string(),
        script_name: "a".to_string(),
    };
    assert_eq!(plan_signal(&s, &facts()), SignalWork::MoveAndAttachScript(4));
    assert_eq!(
        settle_signal(SignalWork::MoveAndAttachScript(4), WorkOutcome::ScriptMoveFailed),
        (SignalNext::Keep, Some(SignalError::ScriptMoveFailed))
    );
    assert_eq!(
        settle_signal(SignalWork::MoveAndAttachScript(4), WorkOutcome::ScriptAttachFailed),
        (SignalNext::Clear, Some(SignalError::ScriptAttachFailed))
    );
    let f = SignalFacts { selected: None, ..facts() };
    let w = plan_signal(&s, &f);
    assert_eq!(w, SignalWork::FailAttachWithoutSelection);
    assert_eq!(
        settle_signal(w, WorkOutcome::Done),
        (SignalNext::Keep, Some(SignalError::NoEntitySelected))
    );
}

#[test]
fn script_requests_without_selection_only_warn() {
    assert_eq!(
        settle_signal(SignalWork::AttachNewScript(4), WorkOutcome::ScriptAttachFailed),
        (SignalNext::Clear, Some(SignalError::NewScriptAttachFailed))
    );
    let f = SignalFacts { selected: None, ..facts() };
    let s: Signal<()> = Signal::CreateAndAttachScript {
        script_path: "b.rhai".to_string(),
        script_name: "b".to_string(),
    };
    assert_eq!(plan_signal(&s, &f), SignalWork::WarnNoEntityForNewScript);
    let s: Signal<()> = Signal::RemoveScript;
    assert_eq!(plan_signal(&s, &f), SignalWork::WarnNoEntityForRemoveScript);
    let s: Signal<()> = Signal::EditScript;
    assert_eq!(plan_signal(&s, &f), SignalWork::WarnNoEntityToEditScript);
    assert_eq!(plan_signal(&s, &facts()), SignalWork::OpenScriptOf(4));
}

#[test]
fn play_requires_player_camera_target() {
    let s: Signal<()> = Signal::Play;
    let f = SignalFacts { has_player_camera_target: false, ..facts() };
    let w = plan_signal(&s, &f);
    assert_eq!(w, SignalWork::FailPlayWithoutPlayerCamera);
    assert_eq!(
        settle_signal(w, WorkOutcome::Done),
        (SignalNext::Keep, Some(SignalError::NoPlayerCamera))
    );
}

#[test]
fn play_outcomes() {
    let w = SignalWork::EnterPlayMode;
    assert_eq!(settle_signal(w, WorkOutcome::Done), (SignalNext::Clear, None));
    assert_eq!(
        settle_signal(w, WorkOutcome::BackupFailed),
        (SignalNext::Clear, Some(SignalError::BackupFailed))
    );
    assert_eq!(
        settle_signal(w, WorkOutcome::ScriptLoadFailed),
        (SignalNext::StopPlaying, Some(SignalError::ScriptLoadFailed))
    );
    assert!(matches!(
        advance_signal(Signal::<()>::Play, SignalNext::StopPlaying),
        Signal::StopPlaying
    ));
}

#[test]
fn player_target_needs_camera_and_model() {
    let s: Signal<()> = Signal::SetPlayerTarget(9);
    assert_eq!(
        plan_signal(&s, &facts()),
        SignalWork::SetFollowTarget { camera: 2, target: 9 }
    );
    let f = SignalFacts { target_is_model: false, ..facts() };
    assert_eq!(plan_signal(&s, &f), SignalWork::SkipFollowTarget);
    let f = SignalFacts { player_camera: None, ..facts() };
    assert_eq!(plan_signal(&s, &f), SignalWork::SkipFollowTarget);
    let c: Signal<()> = Signal::ClearPlayerTarget;
    assert_eq!(plan_signal(&c, &facts()), SignalWork::ClearFollowTarget(Some(2)));
}

#[test]
fn windows_keep_signal_until_closed_or_chosen() {
    let w = SignalWork::ShowAddComponent(4, EntityType::Light);
    assert_eq!(settle_signal(w, WorkOutcome::WindowOpen).0, SignalNext::Keep);
    assert_eq!(settle_signal(w, WorkOutcome::WindowClosed).0, SignalNext::Clear);
    assert_eq!(
        settle_signal(w, WorkOutcome::Picked(WindowChoice::Scripting)).0,
        SignalNext::Clear
    );
    let w = SignalWork::ShowCreateEntity;
    assert_eq!(
        settle_signal(w, WorkOutcome::Picked(WindowChoice::Spawn(PendingSpawn2::Cube))).0,
        SignalNext::Spawn(PendingSpawn2::Cube)
    );
    assert_eq!(settle_signal(w, WorkOutcome::Picked(WindowChoice::Model)).0, SignalNext::Clear);
    assert_eq!(settle_signal(w, WorkOutcome::WindowOpen).0, SignalNext::Keep);
}

#[test]
fn remove_component_outcomes() {
    let s: Signal<()> = Signal::RemoveComponent(4, ComponentKind::Script);
    let w = plan_signal(&s, &facts());
    assert_eq!(w, SignalWork::RemoveComponentOf(4, ComponentKind::Script));
    assert_eq!(settle_signal(w, WorkOutcome::Done).0, SignalNext::Clear);
    let w = SignalWork::RemoveComponentOf(4, ComponentKind::Camera { with_follow_target: true });
    assert_eq!(settle_signal(w, WorkOutcome::Done).0, SignalNext::Keep);
}

#[test]
fn spawn_and_log_end_the_signal() {
    let s: Signal<()> = Signal::Spawn(PendingSpawn2::Plane);
    let w = plan_signal(&s, &facts());
    assert_eq!(w, SignalWork::SpawnNew(PendingSpawn2::Plane));
    let (next, _) = settle_signal(w, WorkOutcome::Done);
    assert!(matches!(advance_signal(s, next), Signal::Idle));
    let s: Signal<()> = Signal::LogEntities;
    assert_eq!(settle_signal(plan_signal(&s, &facts()), WorkOutcome::Done).0, SignalNext::Clear);
}

#[test]
fn signal_error_messages() {
    assert_eq!(
        signal_error_message(SignalError::NoPlayerCamera, "ignored"),
        "Unable to build: Player camera not attached to an entity"
    );
    assert_eq!(
        signal_error_message(SignalError::NoEntitySelected, ""),
        "AttachScript requested but no entity is selected"
    );
    assert_eq!(
        signal_error_message(SignalError::DeleteFailed, "no such entity"),
        "Failed to delete entity: no such entity"
    );
    assert_eq!(signal_error_message(SignalError::ScriptMoveFailed, "denied"), "Move failed: denied");
    assert_eq!(
        signal_error_message(SignalError::NewScriptAttachFailed, "x"),
        "Failed to attach new script: x"
    );
    assert_eq!(
        signal_error_message(SignalError::ScriptLoadFailed, "'a': bad"),
        "Failed to load script 'a': bad"
    );
}

#[test]
fn key_commands_set_the_signal() {
    let s: Signal<&str> = Signal::Idle;
    let s = signal_after_key(KeyCommand::CopySelected, s, Some("cube"));
    assert!(matches!(s, Signal::Copied("cube")));
    let s = signal_after_key(KeyCommand::Paste, s, None);
    assert!(matches!(s, Signal::Paste("cube")));
    let s: Signal<&str> = signal_after_key(KeyCommand::Paste, Signal::Idle, None);
    assert!(matches!(s, Signal::Idle));
    let s: Signal<&str> = signal_after_key(KeyCommand::CopySelected, Signal::Undo, None);
    assert!(matches!(s, Signal::Undo));
    assert!(matches!(signal_after_key::<()>(KeyCommand::DeleteSelected, Signal::Idle, None), Signal::Delete));
    assert!(matches!(signal_after_key::<()>(KeyCommand::Undo, Signal::Idle, None), Signal::Undo));
    assert!(matches!(signal_after_key::<()>(KeyCommand::Play, Signal::Idle, None), Signal::Play));
    assert!(matches!(signal_after_key::<()>(KeyCommand::Save, Signal::Delete, None), Signal::Delete));
}
