use eucalyptus::editor::{
    CameraType, EditorState, EditorTab, EditorTabMenuAction, LightType, MenuEffect, RunEntry,
    ValueType, viewport_has_focus, add_component_target, EntityType,
};

#[test]
fn tab_titles() {
    assert_eq!(EditorTab::Viewport.title(None), "Viewport");
    assert_eq!(EditorTab::ModelEntityList.title(None), "Entity List");
    assert_eq!(EditorTab::AssetViewer.title(None), "Asset Viewer");
    assert_eq!(EditorTab::ResourceInspector.title(None), "Resource Inspector");
    assert_eq!(EditorTab::ErrorConsole.title(None), "Error Console");
    assert_eq!(EditorTab::Plugin(0).title(Some("Terrain")), "Terrain");
    assert_eq!(EditorTab::Plugin(4).title(None), "Unknown Plugin Name");
}

#[test]
fn tab_context_menus() {
    assert_eq!(
        EditorTab::AssetViewer.context_menu(),
        vec![EditorTabMenuAction::ImportResource, EditorTabMenuAction::RefreshAssets]
    );
    assert_eq!(
        EditorTab::ModelEntityList.context_menu(),
        vec![EditorTabMenuAction::AddEntity, EditorTabMenuAction::DeleteEntity]
    );
    assert_eq!(
        EditorTab::ResourceInspector.context_menu(),
        vec![EditorTabMenuAction::AddComponent]
    );
    assert_eq!(EditorTab::Viewport.context_menu(), vec![EditorTabMenuAction::ViewportOption]);
    assert!(EditorTab::ErrorConsole.context_menu().is_empty());
    assert!(EditorTab::Plugin(1).context_menu().is_empty());
}

#[test]
fn menu_entry_labels_and_effects() {
    assert_eq!(EditorTabMenuAction::ImportResource.label(), "Import resource");
    assert_eq!(EditorTabMenuAction::DeleteEntity.label(), "Delete Entity");
    assert_eq!(EditorTabMenuAction::ViewportOption.label(), "Viewport Option");
    assert_eq!(EditorTabMenuAction::AddEntity.effect(false), MenuEffect::CreateEntity);
    assert_eq!(EditorTabMenuAction::AddComponent.effect(true), MenuEffect::AddComponentToSelected);
    assert_eq!(EditorTabMenuAction::AddComponent.effect(false), MenuEffect::WarnNoSelection);
    assert_eq!(
        EditorTabMenuAction::RemoveComponent.effect(true),
        MenuEffect::RemoveScriptOfSelected
    );
    assert_eq!(EditorTabMenuAction::ViewportOption.effect(true), MenuEffect::Nothing);
    assert_eq!(EditorTabMenuAction::RefreshAssets.effect(false), MenuEffect::RefreshAssets);
}

#[test]
fn run_entry_follows_play_state() {
    assert_eq!(EditorState::Playing.run_entry(), RunEntry::Stop);
    assert_eq!(EditorState::Editing.run_entry(), RunEntry::Play);
    assert_eq!(EditorState::Building.run_entry(), RunEntry::Play);
    assert!(EditorState::Playing.is_playing());
    assert!(!EditorState::Editing.is_playing());
}

#[test]
fn light_type_fields() {
    assert!(!LightType::Directional.has_attenuation());
    assert!(LightType::Point.has_attenuation());
    assert!(LightType::Spot.has_attenuation());
    assert!(LightType::Spot.has_cutoff());
    assert!(!LightType::Point.has_cutoff());
    assert_eq!(LightType::Directional.name(), "Directional");
    assert_eq!(LightType::Spot.name(), "Spot");
}

#[test]
fn camera_type_rules() {
    assert_eq!(CameraType::default_type(), CameraType::Normal);
    assert!(!CameraType::Player.offers_debug_choice());
    assert!(CameraType::Normal.offers_debug_choice());
    assert!(!CameraType::Debug.can_be_initial());
    assert!(CameraType::Player.can_be_initial());
    assert_eq!(CameraType::Debug.name(), "Debug");
    assert_eq!(CameraType::Player.name(), "Player");
    assert_eq!(CameraType::Normal.name(), "Normal");
}

#[test]
fn value_types_in_picker_order() {
    let all = ValueType::all();
    assert_eq!(
        all,
        vec![ValueType::String, ValueType::Float, ValueType::Int, ValueType::Bool, ValueType::Vec3]
    );
    let names: Vec<String> = all.iter().map(|t| t.name()).collect();
    assert_eq!(names, vec!["String", "Float", "Int", "Bool", "Vec3"]);
}

#[test]
fn viewport_focus_follows_focused_tab() {
    assert!(viewport_has_focus(Some(EditorTab::Viewport)));
    assert!(!viewport_has_focus(Some(EditorTab::AssetViewer)));
    assert!(!viewport_has_focus(Some(EditorTab::Plugin(0))));
    assert!(!viewport_has_focus(None));
}

#[test]
fn add_component_target_prefers_light() {
    assert_eq!(add_component_target(true, false), Some(EntityType::Entity));
    assert_eq!(add_component_target(false, true), Some(EntityType::Light));
    assert_eq!(add_component_target(true, true), Some(EntityType::Light));
    assert_eq!(add_component_target(false, false), None);
}

#[test]
fn camera_tree_entries() {
    assert_eq!(CameraType::Debug.icon(), "🎥");
    assert_eq!(CameraType::Player.icon(), "📹");
    assert_eq!(CameraType::Normal.icon(), "📷");
    assert_eq!(CameraType::Player.tree_label("Main"), "Main (Player)");
    assert_eq!(CameraType::Debug.tree_label(""), " (Debug)");
}
