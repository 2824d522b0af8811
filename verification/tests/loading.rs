use eucalyptus::loading::{loading_label, receive_status, IsWorldLoadedYet, UpdatePhase, WorldLoadingStatus};

#[test]
fn world_loading_flags() {
    let mut w = IsWorldLoadedYet::new();
    assert!(!w.is_fully_loaded());
    assert!(!w.is_project_ready());
    assert_eq!(w.update_phase(), UpdatePhase::NotFullyLoaded);
    w.mark_project_loaded();
    assert!(w.is_project_ready());
    assert!(!w.is_fully_loaded());
    w.mark_scene_loaded();
    assert!(w.is_fully_loaded());
    assert_eq!(w.update_phase(), UpdatePhase::NeedsRenderingSetup);
    w.mark_rendering_loaded();
    assert_eq!(w.update_phase(), UpdatePhase::Running);
}

#[test]
fn world_running_needs_every_part_in_any_order() {
    let mut w = IsWorldLoadedYet::new();
    w.mark_rendering_loaded();
    w.mark_scene_loaded();
    assert_eq!(w.update_phase(), UpdatePhase::NotFullyLoaded);
    w.mark_project_loaded();
    assert_eq!(w.update_phase(), UpdatePhase::Running);
}

#[test]
fn loading_labels() {
    assert_eq!(loading_label(&WorldLoadingStatus::Idle), "Initialising...");
    assert_eq!(
        loading_label(&WorldLoadingStatus::LoadingEntity { index: 0, name: "cube".to_string(), total: 3 }),
        "Loading entity: cube"
    );
    assert_eq!(
        loading_label(&WorldLoadingStatus::LoadingLight { index: 1, name: "sun".to_string(), total: 2 }),
        "Loading light: sun"
    );
    assert_eq!(
        loading_label(&WorldLoadingStatus::LoadingCamera { index: 0, name: "main".to_string(), total: 1 }),
        "Loading camera: main"
    );
    assert_eq!(loading_label(&WorldLoadingStatus::Completed), "Done!");
}

#[test]
fn receiving_statuses() {
    let mut w = IsWorldLoadedYet::new();
    let mut cur = WorldLoadingStatus::Idle;
    let keep = receive_status(
        &mut w,
        &mut cur,
        WorldLoadingStatus::LoadingEntity { index: 0, name: "a".to_string(), total: 1 },
    );
    assert!(keep);
    assert!(matches!(cur, WorldLoadingStatus::LoadingEntity { .. }));
    assert!(receive_status(&mut w, &mut cur, WorldLoadingStatus::Idle));
    assert!(matches!(cur, WorldLoadingStatus::LoadingEntity { .. }));
    assert!(!w.project_loaded);
    let keep = receive_status(&mut w, &mut cur, WorldLoadingStatus::Completed);
    assert!(!keep);
    assert!(w.project_loaded);
    assert!(!w.scene_loaded);
    assert!(matches!(cur, WorldLoadingStatus::Completed));
}

#[test]
fn world_loading_default_is_new() {
    let d = IsWorldLoadedYet::default();
    assert!(!d.project_loaded && !d.scene_loaded && !d.rendering_loaded);
    assert_eq!(d.is_fully_loaded(), IsWorldLoadedYet::new().is_fully_loaded());
}
