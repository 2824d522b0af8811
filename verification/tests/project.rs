use eucalyptus::project::{
    creation_error_message, eucp_select_error_message, creation_final_progress, creation_outcome, creation_start_progress,
    creation_steps, receive_progress, CreationError, CreationProgressView, ProjectProgress, health, import_folder_segments, import_folders,
    is_packed_script, open_project_error_message, select_eucp_file, CreationStepKind,
    EucpSelectError, ImportFolder, MainMenuFlags, ToolProbe,
};

fn names(v: &[&str]) -> Vec<String> {
    v.iter().map(|s| s.to_string()).collect()
}

#[test]
fn eucp_single_file_is_selected() {
    let n = names(&["README.md", "game.eucp", "src"]);
    assert_eq!(select_eucp_file(&n).unwrap(), 1);
}

#[test]
fn eucp_none_found() {
    let n = names(&["README.md", "eucp", "game.eucp.bak"]);
    assert!(matches!(select_eucp_file(&n), Err(EucpSelectError::NoneFound)));
    assert!(matches!(select_eucp_file(&Vec::new()), Err(EucpSelectError::NoneFound)));
}

#[test]
fn eucp_multiple_found_lists_positions() {
    let n = names(&["a.eucp", "x", "b.eucp", "c.eucp"]);
    match select_eucp_file(&n) {
        Err(EucpSelectError::Multiple(v)) => assert_eq!(v, vec![0, 2, 3]),
        _ => panic!("expected several project files"),
    }
}

#[test]
fn import_model_extensions_go_to_models() {
    assert_eq!(import_folders("glb"), vec![ImportFolder::Models]);
    assert_eq!(import_folders("fbx"), vec![ImportFolder::Models]);
    assert_eq!(import_folders("obj"), vec![ImportFolder::Models]);
}

#[test]
fn import_png_goes_to_textures() {
    assert_eq!(import_folders("png"), vec![ImportFolder::Textures]);
}

#[test]
fn import_other_goes_to_resources() {
    assert_eq!(import_folders("txt"), vec![ImportFolder::Resources]);
    assert_eq!(import_folders(""), vec![ImportFolder::Resources]);
}

#[test]
fn import_extension_matching_several_rules_is_copied_each_time() {
    assert_eq!(
        import_folders("objpng"),
        vec![ImportFolder::Models, ImportFolder::Textures]
    );
}

#[test]
fn import_folder_paths() {
    assert_eq!(import_folder_segments(ImportFolder::Models), vec!["resources", "models"]);
    assert_eq!(import_folder_segments(ImportFolder::Textures), vec!["resources", "textures"]);
    assert_eq!(import_folder_segments(ImportFolder::Resources), vec!["resources"]);
}

#[test]
fn packed_scripts_are_rhai_files() {
    assert!(is_packed_script(Some("rhai")));
    assert!(!is_packed_script(Some("rs")));
    assert!(!is_packed_script(Some("rhai2")));
    assert!(!is_packed_script(None));
}

#[test]
fn creation_steps_in_order() {
    let steps = creation_steps();
    let folders: Vec<&str> = steps.iter().map(|s| s.folder).collect();
    assert_eq!(
        folders,
        vec![
            "git",
            "src",
            "resources/models",
            "resources/shaders",
            "resources/textures",
            "src2",
            "scenes"
        ]
    );
    let progress: Vec<u8> = steps.iter().map(|s| s.progress_tenths).collect();
    assert_eq!(progress, vec![1, 2, 3, 4, 5, 6, 7]);
    assert_eq!(steps[0].kind, CreationStepKind::InitGit);
    assert_eq!(steps[5].kind, CreationStepKind::WriteConfig);
    assert_eq!(steps[6].kind, CreationStepKind::CreateFolder);
    assert_eq!(steps[5].message, "Generating project config...");
}

#[test]
fn creation_outcome_counts_failures() {
    assert_eq!(creation_outcome(true, 0), Ok(()));
    assert_eq!(creation_outcome(true, 2), Err(CreationError::StepsFailed(2)));
    assert_eq!(creation_outcome(false, 0), Err(CreationError::PathNotSet));
    assert_eq!(creation_outcome(false, 3), Err(CreationError::PathNotSet));
}

#[test]
fn creation_messages() {
    assert_eq!(creation_error_message(CreationError::PathNotSet), "Project path not set");
    assert_eq!(
        creation_error_message(CreationError::StepsFailed(12)),
        "Project creation failed with 12 errors"
    );
    assert_eq!(creation_start_progress(), (0, "Starting project creation..."));
    assert_eq!(creation_final_progress(), (10, "Finalizing project..."));
}

#[test]
fn main_menu_flags() {
    let idle = MainMenuFlags {
        in_file_dialogue: false,
        creating: false,
        show_new_project: false,
        show_progress: false,
        has_project_path: true,
        project_name_empty: false,
    };
    assert!(!idle.is_busy());
    assert!(idle.can_create());
    assert!(idle.escape_exits());
    let creating = MainMenuFlags { creating: true, ..idle };
    assert!(creating.is_busy());
    assert!(!creating.can_create());
    let dialog = MainMenuFlags { in_file_dialogue: true, ..idle };
    assert!(!dialog.escape_exits());
    let unnamed = MainMenuFlags { project_name_empty: true, ..idle };
    assert!(!unnamed.can_create());
    let new_window = MainMenuFlags { show_new_project: true, ..idle };
    assert!(!new_window.escape_exits());
}

#[test]
fn outdated_project_error_gets_hint() {
    assert_eq!(
        open_project_error_message("missing field `scenes` at line 3"),
        "Project version is outdated. Please update your .eucp file."
    );
    assert_eq!(open_project_error_message("expected value"), "expected value");
}

#[test]
fn health_all_tools_present() {
    let r = health(
        ToolProbe::Succeeded("cargo 1.80.0\n".to_string()),
        Some(ToolProbe::Succeeded(" rustc 1.80.0 ".to_string())),
        true,
    );
    assert!(r.healthy);
    assert_eq!(
        r.lines,
        vec![
            "Does cargo exist? ✓ YES - cargo 1.80.0".to_string(),
            "Does rustc compiler exist? ✓ YES - rustc 1.80.0".to_string(),
            "Does assimp lib exist? ✓ YES - Found assimp library".to_string(),
            "\n✓ All core tools are available!".to_string(),
        ]
    );
}

#[test]
fn health_cargo_missing() {
    let r = health(ToolProbe::NotFound, None, false);
    assert!(!r.healthy);
    assert_eq!(r.lines[0], "Does cargo exist? ✗ NO - cargo not found in PATH");
    assert_eq!(
        r.lines[1],
        "Does rustc compiler exist? ✗ NO - cargo not found, cannot check rustc"
    );
    assert!(r.lines[2].starts_with("Does assimp lib exist? ⚠ MAYBE"));
    assert_eq!(
        r.lines[3],
        "\n✗ Some required tools are missing. Please install Rust and Cargo."
    );
}

#[test]
fn health_rustc_failed() {
    let r = health(
        ToolProbe::Succeeded("cargo 1.80.0".to_string()),
        Some(ToolProbe::Failed),
        true,
    );
    assert!(!r.healthy);
    assert_eq!(r.lines[1], "Does rustc compiler exist? ✗ NO - rustc command failed");
    let r = health(ToolProbe::Failed, None, true);
    assert_eq!(r.lines[0], "Does cargo exist? ✗ NO - cargo command failed");
    assert!(!r.healthy);
}

#[test]
fn creation_finished_opens_editor_on_success() {
    let mut f = MainMenuFlags {
        in_file_dialogue: false,
        creating: true,
        show_new_project: true,
        show_progress: true,
        has_project_path: true,
        project_name_empty: false,
    };
    let mut g = f;
    assert!(f.creation_finished(true));
    assert!(!f.creating && !f.show_new_project && !f.show_progress);
    assert!(!g.creation_finished(false));
    assert!(!g.creating && g.show_new_project && g.show_progress);
}

#[test]
fn creation_progress_reports() {
    let mut v = CreationProgressView { progress_tenths: 0, message: String::new(), errors: Vec::new() };
    receive_progress(&mut v, ProjectProgress::Step { progress_tenths: 3, message: "Creating models folder...".to_string() });
    assert_eq!(v.progress_tenths, 3);
    assert_eq!(v.message, "Creating models folder...");
    receive_progress(&mut v, ProjectProgress::Error("denied".to_string()));
    receive_progress(&mut v, ProjectProgress::Done);
    assert_eq!(v.errors, vec!["denied".to_string()]);
    assert_eq!(v.progress_tenths, 3);
}

#[test]
fn eucp_selection_messages() {
    assert_eq!(
        eucp_select_error_message(&EucpSelectError::NoneFound, "ignored"),
        "No .eucp files found in current directory"
    );
    assert_eq!(
        eucp_select_error_message(&EucpSelectError::Multiple(vec![0, 2]), "[a.eucp, b.eucp]"),
        "Multiple .eucp files found: [a.eucp, b.eucp]. Please specify which one to use."
    );
}
