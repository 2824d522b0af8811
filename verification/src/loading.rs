//! Tracking of how far the editor's world has come in loading.
use crate::text::concat2;
use crate::text::owned;
use vstd::prelude::*;

verus! {

/// Three independent flags that the editor raises while it brings a project up.
pub struct IsWorldLoadedYet {
    /// Whether the project configuration and world data has been loaded
    pub project_loaded: bool,
    /// Whether the scene rendering and UI setup is complete
    pub scene_loaded: bool,
    /// Checks if the wgpu rendering contexts have been initialised for rendering
    pub rendering_loaded: bool,
}

impl IsWorldLoadedYet {
    /// All flags lowered.
    pub fn new() -> (r: Self)
        ensures
            !r.project_loaded,
            !r.scene_loaded,
            !r.rendering_loaded,
    {
        IsWorldLoadedYet { project_loaded: false, scene_loaded: false, rendering_loaded: false }
    }

    /// The world counts as loaded once both the project and the scene are.
    pub fn is_fully_loaded(&self) -> (r: bool)
        ensures
            r == (self.project_loaded && self.scene_loaded),
    {
        self.project_loaded && self.scene_loaded
    }

    /// Whether the project part has arrived.
    pub fn is_project_ready(&self) -> (r: bool)
        ensures
            r == self.project_loaded,
    {
        self.project_loaded
    }

    pub fn mark_project_loaded(&mut self)
        ensures
            final(self).project_loaded,
            final(self).scene_loaded == old(self).scene_loaded,
            final(self).rendering_loaded == old(self).rendering_loaded,
    {
        self.project_loaded = true;
    }

    pub fn mark_scene_loaded(&mut self)
        ensures
            final(self).scene_loaded,
            final(self).project_loaded == old(self).project_loaded,
            final(self).rendering_loaded == old(self).rendering_loaded,
    {
        self.scene_loaded = true;
    }

    pub fn mark_rendering_loaded(&mut self)
        ensures
            final(self).rendering_loaded,
            final(self).project_loaded == old(self).project_loaded,
            final(self).scene_loaded == old(self).scene_loaded,
    {
        self.rendering_loaded = true;
    }

    /// Which part of the editor's frame update may run.
    pub fn update_phase(&self) -> (r: UpdatePhase)
        ensures
            r == update_phase_spec(self.project_loaded, self.scene_loaded, self.rendering_loaded),
    {
        if !self.is_fully_loaded() {
            UpdatePhase::NotFullyLoaded
        } else if !self.rendering_loaded {
            UpdatePhase::NeedsRenderingSetup
        } else {
            UpdatePhase::Running
        }
    }
}

impl Default for IsWorldLoadedYet {
    /// The same as [`IsWorldLoadedYet::new`]: all flags lowered.
    fn default() -> (r: Self)
        ensures
            !r.project_loaded,
            !r.scene_loaded,
            !r.rendering_loaded,
    {
        IsWorldLoadedYet::new()
    }
}

/// Which part of the editor's frame update may run.
#[derive(Clone, Copy, PartialEq, Eq, Structural, Debug)]
pub enum UpdatePhase {
    /// The project or the scene is still loading: the frame does nothing more.
    NotFullyLoaded,
    /// Everything is loaded but the renderer: set it up this frame.
    NeedsRenderingSetup,
    /// The world runs.
    Running,
}

/// The phase for the three loading flags.
pub open spec fn update_phase_spec(project: bool, scene: bool, rendering: bool) -> UpdatePhase {
    if !(project && scene) {
        UpdatePhase::NotFullyLoaded
    } else if !rendering {
        UpdatePhase::NeedsRenderingSetup
    } else {
        UpdatePhase::Running
    }
}

/// The world runs exactly when all three parts have loaded, in whatever order they were marked.
pub proof fn law_running_iff_all_loaded(project: bool, scene: bool, rendering: bool)
    ensures
        (update_phase_spec(project, scene, rendering) == UpdatePhase::Running) <==> (project
            && scene && rendering),
{
}

/// A report sent by the task that loads the project.
pub enum WorldLoadingStatus {
    Idle,
    LoadingEntity { index: usize, name: String, total: usize },
    LoadingLight { index: usize, name: String, total: usize },
    LoadingCamera { index: usize, name: String, total: usize },
    Completed,
}

/// What the loading window shows for a status.
pub open spec fn loading_label_spec(status: &WorldLoadingStatus) -> Seq<char> {
    match status {
        WorldLoadingStatus::Idle => "Initialising..."@,
        WorldLoadingStatus::LoadingEntity { name, .. } => "Loading entity: "@ + name@,
        WorldLoadingStatus::LoadingLight { name, .. } => "Loading light: "@ + name@,
        WorldLoadingStatus::LoadingCamera { name, .. } => "Loading camera: "@ + name@,
        WorldLoadingStatus::Completed => "Done!"@,
    }
}

/// The line the loading window shows under its spinner.
pub fn loading_label(status: &WorldLoadingStatus) -> (r: String)
    ensures
        r@ == loading_label_spec(status),
{
    match status {
        WorldLoadingStatus::Idle => owned("Initialising..."),
        WorldLoadingStatus::LoadingEntity { name, .. } => concat2("Loading entity: ", name.as_str()),
        WorldLoadingStatus::LoadingLight { name, .. } => concat2("Loading light: ", name.as_str()),
        WorldLoadingStatus::LoadingCamera { name, .. } => concat2("Loading camera: ", name.as_str()),
        WorldLoadingStatus::Completed => owned("Done!"),
    }
}

/// Takes in a report of the loading task. A progress report becomes the
/// current status; `Completed` marks the project loaded, becomes the current
/// status and ends the reports (`false` is returned); `Idle` changes nothing.
pub fn receive_status(
    loaded: &mut IsWorldLoadedYet,
    current: &mut WorldLoadingStatus,
    status: WorldLoadingStatus,
) -> (keep_receiving: bool)
    ensures
        match status {
            WorldLoadingStatus::Completed => {
                &&& !keep_receiving
                &&& final(loaded).project_loaded
                &&& *final(current) is Completed
            },
            WorldLoadingStatus::Idle => {
                &&& keep_receiving
                &&& final(loaded).project_loaded == old(loaded).project_loaded
                &&& *final(current) == *old(current)
            },
            _ => {
                &&& keep_receiving
                &&& final(loaded).project_loaded == old(loaded).project_loaded
                &&& *final(current) == status
            },
        },
        final(loaded).scene_loaded == old(loaded).scene_loaded,
        final(loaded).rendering_loaded == old(loaded).rendering_loaded,
{
    match status {
        WorldLoadingStatus::Completed => {
            loaded.mark_project_loaded();
            *current = WorldLoadingStatus::Completed;
            false
        },
        WorldLoadingStatus::Idle => true,
        other => {
            *current = other;
            true
        },
    }
}

} // verus!
