//! The editor's modes, tabs, context menus and the small rules around them.
use crate::text::{concat2, owned};
use vstd::prelude::*;

verus! {

/// What the editor is doing.
#[derive(Clone, Copy, PartialEq, Eq, Structural, Debug)]
pub enum EditorState {
    Editing,
    Building,
    Playing,
}

/// The kind of thing an entity in the world is.
#[derive(Clone, Copy, PartialEq, Eq, Structural, Debug)]
pub enum EntityType {
    Entity,
    Light,
    Camera,
}

/// A spawn requested from the "Add Entity" window.
#[derive(Clone, Copy, PartialEq, Eq, Structural, Debug)]
pub enum PendingSpawn2 {
    Light,
    Plane,
    Cube,
    Camera,
}

/// A dockable tab of the editor window.
#[derive(Clone, Copy, PartialEq, Eq, Structural, Debug)]
pub enum EditorTab {
    AssetViewer,
    ResourceInspector,
    ModelEntityList,
    Viewport,
    ErrorConsole,
    /// A plugin's tab, by its index in the plugin registry.
    Plugin(usize),
}

/// An entry of a tab's right-click menu.
#[derive(Clone, Copy, PartialEq, Eq, Structural, Debug)]
pub enum EditorTabMenuAction {
    ImportResource,
    RefreshAssets,
    AddEntity,
    DeleteEntity,
    AddComponent,
    RemoveComponent,
    ViewportOption,
}

/// The type of a custom property's value, as chosen in the property grid.
#[derive(Clone, Copy, PartialEq, Eq, Structural, Debug)]
pub enum ValueType {
    String,
    Float,
    Int,
    Bool,
    Vec3,
}

/// The kind of a light source.
#[derive(Clone, Copy, PartialEq, Eq, Structural, Debug)]
pub enum LightType {
    Directional,
    Point,
    Spot,
}

/// The role of a camera.
#[derive(Clone, Copy, PartialEq, Eq, Structural, Debug)]
pub enum CameraType {
    Normal,
    Debug,
    Player,
}

/// What the editor does after a context-menu entry was chosen.
#[derive(Clone, Copy, PartialEq, Eq, Structural, Debug)]
pub enum MenuEffect {
    /// Run the resource import dialog.
    ImportResources,
    /// Reload the resource tree from disk.
    RefreshAssets,
    /// Open the "Add Entity" window.
    CreateEntity,
    /// Delete the selected entity.
    DeleteSelected,
    /// Ask for a component to add to the selected entity.
    AddComponentToSelected,
    /// Warn that no entity is selected to add a component to.
    WarnNoSelection,
    /// Remove the selected entity's script component.
    RemoveScriptOfSelected,
    /// Nothing besides closing the menu.
    Nothing,
}

/// The title shown on a tab; a plugin's tab shows the plugin's display name
/// when the registry has one at that index.
pub open spec fn tab_title_spec(tab: EditorTab, plugin_name: Option<Seq<char>>) -> Seq<char> {
    match tab {
        EditorTab::Viewport => "Viewport"@,
        EditorTab::ModelEntityList => "Entity List"@,
        EditorTab::AssetViewer => "Asset Viewer"@,
        EditorTab::ResourceInspector => "Resource Inspector"@,
        EditorTab::Plugin(_) => match plugin_name {
            Some(n) => n,
            None => "Unknown Plugin Name"@,
        },
        EditorTab::ErrorConsole => "Error Console"@,
    }
}

/// The entries of a tab's right-click menu (a plugin adds its own entries).
pub open spec fn context_menu_spec(tab: EditorTab) -> Seq<EditorTabMenuAction> {
    match tab {
        EditorTab::AssetViewer => seq![
            EditorTabMenuAction::ImportResource,
            EditorTabMenuAction::RefreshAssets,
        ],
        EditorTab::ModelEntityList => seq![
            EditorTabMenuAction::AddEntity,
            EditorTabMenuAction::DeleteEntity,
        ],
        EditorTab::ResourceInspector => seq![EditorTabMenuAction::AddComponent],
        EditorTab::Viewport => seq![EditorTabMenuAction::ViewportOption],
        EditorTab::ErrorConsole => Seq::empty(),
        EditorTab::Plugin(_) => Seq::empty(),
    }
}

/// The label of a context-menu entry.
pub open spec fn menu_label_spec(action: EditorTabMenuAction) -> Seq<char> {
    match action {
        EditorTabMenuAction::ImportResource => "Import resource"@,
        EditorTabMenuAction::RefreshAssets => "Refresh assets"@,
        EditorTabMenuAction::AddEntity => "Add Entity"@,
        EditorTabMenuAction::DeleteEntity => "Delete Entity"@,
        EditorTabMenuAction::AddComponent => "Add Component"@,
        EditorTabMenuAction::RemoveComponent => "Remove Component"@,
        EditorTabMenuAction::ViewportOption => "Viewport Option"@,
    }
}

/// What choosing `action` does, given whether an entity is selected.
pub open spec fn menu_effect_spec(action: EditorTabMenuAction, has_selection: bool) -> MenuEffect {
    match action {
        EditorTabMenuAction::ImportResource => MenuEffect::ImportResources,
        EditorTabMenuAction::RefreshAssets => MenuEffect::RefreshAssets,
        EditorTabMenuAction::AddEntity => MenuEffect::CreateEntity,
        EditorTabMenuAction::DeleteEntity => MenuEffect::DeleteSelected,
        EditorTabMenuAction::AddComponent => if has_selection {
            MenuEffect::AddComponentToSelected
        } else {
            MenuEffect::WarnNoSelection
        },
        EditorTabMenuAction::RemoveComponent => MenuEffect::RemoveScriptOfSelected,
        EditorTabMenuAction::ViewportOption => MenuEffect::Nothing,
    }
}

impl EditorTab {
    /// The tab's title.
    pub fn title(&self, plugin_name: Option<&str>) -> (r: String)
        ensures
            r@ == tab_title_spec(
                *self,
                match plugin_name {
                    Some(n) => Some(n@),
                    None => None,
                },
            ),
    {
        match self {
            EditorTab::Viewport => owned("Viewport"),
            EditorTab::ModelEntityList => owned("Entity List"),
            EditorTab::AssetViewer => owned("Asset Viewer"),
            EditorTab::ResourceInspector => owned("Resource Inspector"),
            EditorTab::Plugin(_) => match plugin_name {
                Some(n) => owned(n),
                None => owned("Unknown Plugin Name"),
            },
            EditorTab::ErrorConsole => owned("Error Console"),
        }
    }

    /// The entries of this tab's right-click menu.
    pub fn context_menu(&self) -> (r: Vec<EditorTabMenuAction>)
        ensures
            r@ == context_menu_spec(*self),
    {
        let mut r: Vec<EditorTabMenuAction> = Vec::new();
        match self {
            EditorTab::AssetViewer => {
                r.push(EditorTabMenuAction::ImportResource);
                r.push(EditorTabMenuAction::RefreshAssets);
            },
            EditorTab::ModelEntityList => {
                r.push(EditorTabMenuAction::AddEntity);
                r.push(EditorTabMenuAction::DeleteEntity);
            },
            EditorTab::ResourceInspector => {
                r.push(EditorTabMenuAction::AddComponent);
            },
            EditorTab::Viewport => {
                r.push(EditorTabMenuAction::ViewportOption);
            },
            EditorTab::ErrorConsole => {},
            EditorTab::Plugin(_) => {},
        }
        assert(r@ =~= context_menu_spec(*self));
        r
    }
}

impl EditorTabMenuAction {
    /// The entry's label.
    pub fn label(&self) -> (r: String)
        ensures
            r@ == menu_label_spec(*self),
    {
        match self {
            EditorTabMenuAction::ImportResource => owned("Import resource"),
            EditorTabMenuAction::RefreshAssets => owned("Refresh assets"),
            EditorTabMenuAction::AddEntity => owned("Add Entity"),
            EditorTabMenuAction::DeleteEntity => owned("Delete Entity"),
            EditorTabMenuAction::AddComponent => owned("Add Component"),
            EditorTabMenuAction::RemoveComponent => owned("Remove Component"),
            EditorTabMenuAction::ViewportOption => owned("Viewport Option"),
        }
    }

    /// What choosing the entry does. Removing a component is only offered
    /// while an entity is selected.
    pub fn effect(&self, has_selection: bool) -> (r: MenuEffect)
        requires
            *self == EditorTabMenuAction::RemoveComponent ==> has_selection,
        ensures
            r == menu_effect_spec(*self, has_selection),
    {
        match self {
            EditorTabMenuAction::ImportResource => MenuEffect::ImportResources,
            EditorTabMenuAction::RefreshAssets => MenuEffect::RefreshAssets,
            EditorTabMenuAction::AddEntity => MenuEffect::CreateEntity,
            EditorTabMenuAction::DeleteEntity => MenuEffect::DeleteSelected,
            EditorTabMenuAction::AddComponent => if has_selection {
                MenuEffect::AddComponentToSelected
            } else {
                MenuEffect::WarnNoSelection
            },
            EditorTabMenuAction::RemoveComponent => MenuEffect::RemoveScriptOfSelected,
            EditorTabMenuAction::ViewportOption => MenuEffect::Nothing,
        }
    }
}

/// The kind under which a component is added to the selected entity: a
/// light when it has a light (even if it has a model too), an entity when it
/// has a model, and none otherwise.
pub fn add_component_target(has_model: bool, has_light: bool) -> (r: Option<EntityType>)
    ensures
        r == (if has_light {
            Some(EntityType::Light)
        } else if has_model {
            Some(EntityType::Entity)
        } else {
            None::<EntityType>
        }),
{
    if has_light {
        Some(EntityType::Light)
    } else if has_model {
        Some(EntityType::Entity)
    } else {
        None
    }
}

/// Whether the viewport has focus: the focused tab, if any, is the viewport.
pub fn viewport_has_focus(focused: Option<EditorTab>) -> (r: bool)
    ensures
        r == (focused == Some(EditorTab::Viewport)),
{
    match focused {
        Some(EditorTab::Viewport) => true,
        _ => false,
    }
}

/// The File menu's run entry: `Stop` while playing, `Play` otherwise.
#[derive(Clone, Copy, PartialEq, Eq, Structural, Debug)]
pub enum RunEntry {
    Play,
    Stop,
}

impl EditorState {
    /// Which run entry the File menu shows.
    pub fn run_entry(&self) -> (r: RunEntry)
        ensures
            r == (if *self == EditorState::Playing {
                RunEntry::Stop
            } else {
                RunEntry::Play
            }),
    {
        match self {
            EditorState::Playing => RunEntry::Stop,
            _ => RunEntry::Play,
        }
    }

    /// Whether the editor is in play mode.
    pub fn is_playing(&self) -> (r: bool)
        ensures
            r == (*self == EditorState::Playing),
    {
        match self {
            EditorState::Playing => true,
            _ => false,
        }
    }
}

impl LightType {
    /// Point and spot lights have a range (attenuation).
    pub fn has_attenuation(&self) -> (r: bool)
        ensures
            r == (*self == LightType::Point || *self == LightType::Spot),
    {
        match self {
            LightType::Directional => false,
            _ => true,
        }
    }

    /// Only spot lights have cut-off angles.
    pub fn has_cutoff(&self) -> (r: bool)
        ensures
            r == (*self == LightType::Spot),
    {
        match self {
            LightType::Spot => true,
            _ => false,
        }
    }

    /// The name shown in the light type picker.
    pub fn name(&self) -> (r: String)
        ensures
            r@ == match *self {
                LightType::Directional => "Directional"@,
                LightType::Point => "Point"@,
                LightType::Spot => "Spot"@,
            },
    {
        match self {
            LightType::Directional => owned("Directional"),
            LightType::Point => owned("Point"),
            LightType::Spot => owned("Spot"),
        }
    }
}

impl CameraType {
    /// A new camera component is a normal camera.
    pub fn default_type() -> (r: CameraType)
        ensures
            r == CameraType::Normal,
    {
        CameraType::Normal
    }

    /// The camera type picker offers `Debug` unless the camera is a player camera.
    pub fn offers_debug_choice(&self) -> (r: bool)
        ensures
            r == (*self != CameraType::Player),
    {
        match self {
            CameraType::Player => false,
            _ => true,
        }
    }

    /// A debug camera cannot become the game's initial camera.
    pub fn can_be_initial(&self) -> (r: bool)
        ensures
            r == (*self != CameraType::Debug),
    {
        match self {
            CameraType::Debug => false,
            _ => true,
        }
    }

    /// The name shown next to a camera in the entity tree.
    pub fn name(&self) -> (r: String)
        ensures
            r@ == match *self {
                CameraType::Debug => "Debug"@,
                CameraType::Player => "Player"@,
                CameraType::Normal => "Normal"@,
            },
    {
        match self {
            CameraType::Debug => owned("Debug"),
            CameraType::Player => owned("Player"),
            CameraType::Normal => owned("Normal"),
        }
    }
}

impl CameraType {
    /// The icon shown before a camera in the entity tree.
    pub fn icon(&self) -> (r: &'static str)
        ensures
            r@ == match *self {
                CameraType::Debug => "🎥"@,
                CameraType::Player => "📹"@,
                CameraType::Normal => "📷"@,
            },
    {
        match self {
            CameraType::Debug => "🎥",
            CameraType::Player => "📹",
            CameraType::Normal => "📷",
        }
    }

    /// A camera's entry in the entity tree: its name and, in brackets, its role.
    pub fn tree_label(&self, name: &str) -> (r: String)
        ensures
            r@ == name@ + " ("@ + match *self {
                CameraType::Debug => "Debug"@,
                CameraType::Player => "Player"@,
                CameraType::Normal => "Normal"@,
            } + ")"@,
    {
        let head = concat2(name, " (");
        let role = self.name();
        let mid = concat2(head.as_str(), role.as_str());
        concat2(mid.as_str(), ")")
    }
}

impl ValueType {
    /// All types, in the order the type picker lists them.
    pub fn all() -> (r: Vec<ValueType>)
        ensures
            r@ == seq![
                ValueType::String,
                ValueType::Float,
                ValueType::Int,
                ValueType::Bool,
                ValueType::Vec3,
            ],
    {
        let mut r = Vec::new();
        r.push(ValueType::String);
        r.push(ValueType::Float);
        r.push(ValueType::Int);
        r.push(ValueType::Bool);
        r.push(ValueType::Vec3);
        assert(r@ =~= seq![
            ValueType::String,
            ValueType::Float,
            ValueType::Int,
            ValueType::Bool,
            ValueType::Vec3,
        ]);
        r
    }

    /// The type's name, as the picker shows it.
    pub fn name(&self) -> (r: String)
        ensures
            r@ == match *self {
                ValueType::String => "String"@,
                ValueType::Float => "Float"@,
                ValueType::Int => "Int"@,
                ValueType::Bool => "Bool"@,
                ValueType::Vec3 => "Vec3"@,
            },
    {
        match self {
            ValueType::String => owned("String"),
            ValueType::Float => owned("Float"),
            ValueType::Int => owned("Int"),
            ValueType::Bool => owned("Bool"),
            ValueType::Vec3 => owned("Vec3"),
        }
    }
}

/// Each context-menu entry does its own thing: deleting, creating and
/// importing happen only from their own entries, adding a component acts on
/// the selection when there is one and warns otherwise, and only the
/// viewport option does nothing.
pub proof fn law_menu_effects(a: EditorTabMenuAction, has_selection: bool)
    ensures
        ({
            let e = menu_effect_spec(a, has_selection);
            &&& (e == MenuEffect::DeleteSelected) == (a == EditorTabMenuAction::DeleteEntity)
            &&& (e == MenuEffect::CreateEntity) == (a == EditorTabMenuAction::AddEntity)
            &&& (e == MenuEffect::ImportResources) == (a == EditorTabMenuAction::ImportResource)
            &&& (e == MenuEffect::RefreshAssets) == (a == EditorTabMenuAction::RefreshAssets)
            &&& (e == MenuEffect::AddComponentToSelected) == (a == EditorTabMenuAction::AddComponent
                && has_selection)
            &&& (e == MenuEffect::WarnNoSelection) == (a == EditorTabMenuAction::AddComponent
                && !has_selection)
            &&& (e == MenuEffect::RemoveScriptOfSelected) == (a
                == EditorTabMenuAction::RemoveComponent)
            &&& (e == MenuEffect::Nothing) == (a == EditorTabMenuAction::ViewportOption)
        }),
{
}

/// Every entry a tab's menu offers belongs to that tab: the asset viewer
/// imports and refreshes, the entity list adds and deletes entities, the
/// inspector adds components, the viewport has its option, and the console
/// and plugin tabs offer nothing; no entry appears twice.
pub proof fn law_context_menus(tab: EditorTab, a: EditorTabMenuAction)
    ensures
        context_menu_spec(tab).no_duplicates(),
        context_menu_spec(tab).contains(a) == ((tab == EditorTab::AssetViewer && (a
            == EditorTabMenuAction::ImportResource || a == EditorTabMenuAction::RefreshAssets)) || (
        tab == EditorTab::ModelEntityList && (a == EditorTabMenuAction::AddEntity || a
            == EditorTabMenuAction::DeleteEntity)) || (tab == EditorTab::ResourceInspector && a
            == EditorTabMenuAction::AddComponent) || (tab == EditorTab::Viewport && a
            == EditorTabMenuAction::ViewportOption)),
{
    let m = context_menu_spec(tab);
    if m.contains(a) {
        let j = m.index_of(a);
        assert(m[j] == a);
    }
    if tab == EditorTab::AssetViewer {
        assert(m[0] == EditorTabMenuAction::ImportResource);
        assert(m[1] == EditorTabMenuAction::RefreshAssets);
    } else if tab == EditorTab::ModelEntityList {
        assert(m[0] == EditorTabMenuAction::AddEntity);
        assert(m[1] == EditorTabMenuAction::DeleteEntity);
    } else if tab == EditorTab::ResourceInspector {
        assert(m[0] == EditorTabMenuAction::AddComponent);
    } else if tab == EditorTab::Viewport {
        assert(m[0] == EditorTabMenuAction::ViewportOption);
    }
}

/// Different built-in tabs have different titles, and a plugin's tab shows
/// the plugin's name.
pub proof fn law_tab_titles(a: EditorTab, b: EditorTab, name: Option<Seq<char>>)
    ensures
        !(a is Plugin) && !(b is Plugin) && a != b ==> tab_title_spec(a, None) != tab_title_spec(
            b,
            None,
        ),
        a is Plugin ==> (name matches Some(n) ==> tab_title_spec(a, name) == n),
{
    reveal_strlit("Viewport");
    reveal_strlit("Entity List");
    reveal_strlit("Asset Viewer");
    reveal_strlit("Resource Inspector");
    reveal_strlit("Error Console");
    if !(a is Plugin) && !(b is Plugin) && a != b {
        let ta = tab_title_spec(a, None);
        let tb = tab_title_spec(b, None);
        if ta.len() == tb.len() {
            assert(ta[0] != tb[0] || ta[1] != tb[1]);
        }
    }
}

} // verus!
