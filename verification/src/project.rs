//! Project-level decisions: which project file to open, where imported
//! resources go, what a new project consists of, the main menu's rules and
//! the toolchain health report.
use crate::text::{
    concat2, contains, contains_seq, decimal_seq, ends_with, owned, push_decimal, same_text, trim,
    trim_seq,
};
use vstd::prelude::*;

verus! {

/// Why no single project file could be picked.
#[derive(Debug)]
pub enum EucpSelectError {
    /// No file name ends with `.eucp`.
    NoneFound,
    /// Several do; their positions in the listing, in order.
    Multiple(Vec<usize>),
}

/// The positions among the first `n` names of those ending with `.eucp`.
pub open spec fn eucp_positions(names: Seq<Seq<char>>, n: nat) -> Seq<usize>
    decreases n,
{
    if n == 0 {
        Seq::empty()
    } else {
        let m = eucp_positions(names, (n - 1) as nat);
        if ".eucp"@.is_suffix_of(names[n - 1]) {
            m.push((n - 1) as usize)
        } else {
            m
        }
    }
}

/// Picks the project file among the names of a directory's entries: the
/// only one ending with `.eucp`.
pub fn select_eucp_file(names: &Vec<String>) -> (r: Result<usize, EucpSelectError>)
    ensures
        ({
            let m = eucp_positions(names@.map_values(|s: String| s@), names@.len());
            match r {
                Ok(i) => m.len() == 1 && i == m[0],
                Err(EucpSelectError::NoneFound) => m.len() == 0,
                Err(EucpSelectError::Multiple(v)) => m.len() > 1 && v@ == m,
            }
        }),
{
    let ghost views = names@.map_values(|s: String| s@);
    let mut found: Vec<usize> = Vec::new();
    let mut i: usize = 0;
    while i < names.len()
        invariant
            i <= names@.len(),
            views == names@.map_values(|s: String| s@),
            found@ == eucp_positions(views, i as nat),
        decreases names@.len() - i,
    {
        if ends_with(names[i].as_str(), ".eucp") {
            found.push(i);
        }
        i = i + 1;
    }
    if found.len() == 0 {
        Err(EucpSelectError::NoneFound)
    } else if found.len() == 1 {
        Ok(found[0])
    } else {
        Err(EucpSelectError::Multiple(found))
    }
}

/// The message reported when no single project file could be picked.
/// `listed` is the list of the project files found, as shown to the user;
/// the message for none found does not use it.
pub fn eucp_select_error_message(e: &EucpSelectError, listed: &str) -> (r: String)
    ensures
        r@ == match *e {
            EucpSelectError::NoneFound => "No .eucp files found in current directory"@,
            EucpSelectError::Multiple(_) => "Multiple .eucp files found: "@ + listed@
                + ". Please specify which one to use."@,
        },
{
    match e {
        EucpSelectError::NoneFound => owned("No .eucp files found in current directory"),
        EucpSelectError::Multiple(_) => {
            let head = concat2("Multiple .eucp files found: ", listed);
            concat2(head.as_str(), ". Please specify which one to use.")
        },
    }
}

/// Where an imported file is copied inside the project.
#[derive(Clone, Copy, PartialEq, Eq, Structural, Debug)]
pub enum ImportFolder {
    /// `resources/models`
    Models,
    /// `resources/textures`
    Textures,
    /// `resources`
    Resources,
}

/// The copies made of an imported file with extension `ext`: one into the
/// models folder for each model extension `ext` contains (`glb`, `fbx`,
/// `obj`), one into the textures folder if it contains `png`, and one into
/// the resources folder if neither.
pub open spec fn import_folders_spec(ext: Seq<char>) -> Seq<ImportFolder> {
    let models = (if contains_seq(ext, "glb"@) {
        seq![ImportFolder::Models]
    } else {
        Seq::empty()
    }) + (if contains_seq(ext, "fbx"@) {
        seq![ImportFolder::Models]
    } else {
        Seq::empty()
    }) + (if contains_seq(ext, "obj"@) {
        seq![ImportFolder::Models]
    } else {
        Seq::empty()
    });
    let all = models + (if contains_seq(ext, "png"@) {
        seq![ImportFolder::Textures]
    } else {
        Seq::empty()
    });
    if all.len() == 0 {
        seq![ImportFolder::Resources]
    } else {
        all
    }
}

/// The folders an imported file with extension `ext` is copied into, in order.
pub fn import_folders(ext: &str) -> (r: Vec<ImportFolder>)
    ensures
        r@ == import_folders_spec(ext@),
{
    let mut r: Vec<ImportFolder> = Vec::new();
    if contains(ext, "glb") {
        r.push(ImportFolder::Models);
    }
    if contains(ext, "fbx") {
        r.push(ImportFolder::Models);
    }
    if contains(ext, "obj") {
        r.push(ImportFolder::Models);
    }
    if contains(ext, "png") {
        r.push(ImportFolder::Textures);
    }
    if r.len() == 0 {
        r.push(ImportFolder::Resources);
    }
    assert(r@ =~= import_folders_spec(ext@));
    r
}

/// The path of an import folder below the project directory, as segments.
pub fn import_folder_segments(f: ImportFolder) -> (r: Vec<&'static str>)
    ensures
        r@.map_values(|s: &str| s@) == match f {
            ImportFolder::Models => seq!["resources"@, "models"@],
            ImportFolder::Textures => seq!["resources"@, "textures"@],
            ImportFolder::Resources => seq!["resources"@],
        },
{
    let mut r: Vec<&'static str> = Vec::new();
    r.push("resources");
    match f {
        ImportFolder::Models => r.push("models"),
        ImportFolder::Textures => r.push("textures"),
        ImportFolder::Resources => {},
    }
    assert(r@.map_values(|s: &str| s@) =~= match f {
        ImportFolder::Models => seq!["resources"@, "models"@],
        ImportFolder::Textures => seq!["resources"@, "textures"@],
        ImportFolder::Resources => seq!["resources"@],
    });
    r
}

/// Whether a file in the project's `src` folder is a script packed into the
/// runtime data: its extension is `rhai`.
pub fn is_packed_script(ext: Option<&str>) -> (r: bool)
    ensures
        r == match ext {
            Some(e) => e@ == "rhai"@,
            None => false,
        },
{
    match ext {
        Some(e) => same_text(e, "rhai"),
        None => false,
    }
}

/// What a step of creating a project does.
#[derive(Clone, Copy, PartialEq, Eq, Structural, Debug)]
pub enum CreationStepKind {
    /// Initialise a git repository (an existing one is fine).
    InitGit,
    /// Write the project configuration and make it the open project.
    WriteConfig,
    /// Create the folder (an existing one is fine).
    CreateFolder,
}

/// One step of creating a project.
pub struct CreationStep {
    pub folder: &'static str,
    /// Progress after the step, in tenths.
    pub progress_tenths: u8,
    pub message: &'static str,
    pub kind: CreationStepKind,
}

/// A creation step as plain values.
pub open spec fn step_view(s: CreationStep) -> (Seq<char>, u8, Seq<char>, CreationStepKind) {
    (s.folder@, s.progress_tenths, s.message@, s.kind)
}

/// The steps of creating a project, in order.
pub open spec fn creation_steps_spec() -> Seq<(Seq<char>, u8, Seq<char>, CreationStepKind)> {
    seq![
        ("git"@, 1u8, "Initializing git repository..."@, CreationStepKind::InitGit),
        ("src"@, 2u8, "Creating src folder..."@, CreationStepKind::CreateFolder),
        ("resources/models"@, 3u8, "Creating models folder..."@, CreationStepKind::CreateFolder),
        ("resources/shaders"@, 4u8, "Creating shaders folder..."@, CreationStepKind::CreateFolder),
        ("resources/textures"@, 5u8, "Creating textures folder..."@, CreationStepKind::CreateFolder),
        ("src2"@, 6u8, "Generating project config..."@, CreationStepKind::WriteConfig),
        ("scenes"@, 7u8, "Creating scenes folder..."@, CreationStepKind::CreateFolder),
    ]
}

/// The steps of creating a project, in order.
pub fn creation_steps() -> (r: Vec<CreationStep>)
    ensures
        r@.map_values(|s: CreationStep| step_view(s)) == creation_steps_spec(),
{
    let mut r: Vec<CreationStep> = Vec::new();
    r.push(CreationStep { folder: "git", progress_tenths: 1, message: "Initializing git repository...", kind: CreationStepKind::InitGit });
    r.push(CreationStep { folder: "src", progress_tenths: 2, message: "Creating src folder...", kind: CreationStepKind::CreateFolder });
    r.push(CreationStep { folder: "resources/models", progress_tenths: 3, message: "Creating models folder...", kind: CreationStepKind::CreateFolder });
    r.push(CreationStep { folder: "resources/shaders", progress_tenths: 4, message: "Creating shaders folder...", kind: CreationStepKind::CreateFolder });
    r.push(CreationStep { folder: "resources/textures", progress_tenths: 5, message: "Creating textures folder...", kind: CreationStepKind::CreateFolder });
    r.push(CreationStep { folder: "src2", progress_tenths: 6, message: "Generating project config...", kind: CreationStepKind::WriteConfig });
    r.push(CreationStep { folder: "scenes", progress_tenths: 7, message: "Creating scenes folder...", kind: CreationStepKind::CreateFolder });
    assert(r@.map_values(|s: CreationStep| step_view(s)) =~= creation_steps_spec());
    r
}

/// The progress shown when creation starts, in tenths, and its message.
pub fn creation_start_progress() -> (r: (u8, &'static str))
    ensures
        r.0 == 0,
        r.1@ == "Starting project creation..."@,
{
    (0, "Starting project creation...")
}

/// The progress shown once every step has run, in tenths, and its message.
pub fn creation_final_progress() -> (r: (u8, &'static str))
    ensures
        r.0 == 10,
        r.1@ == "Finalizing project..."@,
{
    (10, "Finalizing project...")
}

/// Why creating a project failed.
#[derive(Clone, Copy, PartialEq, Eq, Structural, Debug)]
pub enum CreationError {
    /// No location was chosen; no step runs.
    PathNotSet,
    /// This many steps failed.
    StepsFailed(usize),
}

/// How project creation ends: without a location it is refused; with one it
/// fails with the number of steps that failed, if any did.
pub fn creation_outcome(project_path_set: bool, failed_steps: usize) -> (r: Result<(), CreationError>)
    ensures
        !project_path_set ==> r == Err::<(), CreationError>(CreationError::PathNotSet),
        project_path_set && failed_steps == 0 ==> r is Ok,
        project_path_set && failed_steps > 0 ==> r == Err::<(), CreationError>(
            CreationError::StepsFailed(failed_steps),
        ),
{
    if !project_path_set {
        Err(CreationError::PathNotSet)
    } else if failed_steps == 0 {
        Ok(())
    } else {
        Err(CreationError::StepsFailed(failed_steps))
    }
}

/// The message a failed project creation reports.
pub fn creation_error_message(e: CreationError) -> (r: String)
    ensures
        r@ == match e {
            CreationError::PathNotSet => "Project path not set"@,
            CreationError::StepsFailed(n) => "Project creation failed with "@ + decimal_seq(n as nat)
                + " errors"@,
        },
{
    match e {
        CreationError::PathNotSet => owned("Project path not set"),
        CreationError::StepsFailed(n) => {
            let mut s = owned("Project creation failed with ");
            push_decimal(&mut s, n as u64);
            concat2(s.as_str(), " errors")
        },
    }
}

/// The flags of the main menu that its buttons depend on.
#[derive(Clone, Copy, PartialEq, Eq, Structural, Debug)]
pub struct MainMenuFlags {
    pub in_file_dialogue: bool,
    /// A project is being created.
    pub creating: bool,
    pub show_new_project: bool,
    /// The creation progress window is shown.
    pub show_progress: bool,
    pub has_project_path: bool,
    pub project_name_empty: bool,
}

impl MainMenuFlags {
    /// The menu buttons are disabled while a dialog is open or a project is being created.
    pub fn is_busy(&self) -> (r: bool)
        ensures
            r == (self.in_file_dialogue || self.creating),
    {
        self.in_file_dialogue || self.creating
    }

    /// "Create Project" is enabled once a location and a name are given and
    /// no project is being created.
    pub fn can_create(&self) -> (r: bool)
        ensures
            r == (self.has_project_path && !self.project_name_empty && !self.creating),
    {
        self.has_project_path && !self.project_name_empty && !self.creating
    }

    /// Escape closes the application unless the new-project window or a file dialog is open.
    pub fn escape_exits(&self) -> (r: bool)
        ensures
            r == (!self.show_new_project && !self.in_file_dialogue),
    {
        !self.show_new_project && !self.in_file_dialogue
    }
}

impl MainMenuFlags {
    /// Project creation has ended: it is no longer running; on success the
    /// new-project and progress windows close and the editor opens (`true`
    /// is returned); on failure everything else stays.
    pub fn creation_finished(&mut self, succeeded: bool) -> (open_editor: bool)
        ensures
            open_editor == succeeded,
            !final(self).creating,
            final(self).in_file_dialogue == old(self).in_file_dialogue,
            final(self).has_project_path == old(self).has_project_path,
            final(self).project_name_empty == old(self).project_name_empty,
            succeeded ==> !final(self).show_new_project && !final(self).show_progress,
            !succeeded ==> final(self).show_new_project == old(self).show_new_project
                && final(self).show_progress == old(self).show_progress,
    {
        self.creating = false;
        if succeeded {
            self.show_new_project = false;
            self.show_progress = false;
        }
        succeeded
    }
}

/// A report of the task that creates a project.
pub enum ProjectProgress {
    /// A step began: the progress after it, in tenths, and its message.
    Step { progress_tenths: u8, message: String },
    /// A step failed with this message.
    Error(String),
    Done,
}

/// What the progress window shows: the progress in tenths, the current
/// message and the errors reported so far.
pub struct CreationProgressView {
    pub progress_tenths: u8,
    pub message: String,
    pub errors: Vec<String>,
}

/// Takes in a report of the creation task: a step replaces the progress and
/// message, an error is added to the errors, `Done` changes nothing.
pub fn receive_progress(view: &mut CreationProgressView, report: ProjectProgress)
    ensures
        match report {
            ProjectProgress::Step { progress_tenths, message } => {
                &&& final(view).progress_tenths == progress_tenths
                &&& final(view).message@ == message@
                &&& final(view).errors@ == old(view).errors@
            },
            ProjectProgress::Error(e) => {
                &&& final(view).progress_tenths == old(view).progress_tenths
                &&& final(view).message@ == old(view).message@
                &&& final(view).errors@ == old(view).errors@.push(e)
            },
            ProjectProgress::Done => {
                &&& final(view).progress_tenths == old(view).progress_tenths
                &&& final(view).message@ == old(view).message@
                &&& final(view).errors@ == old(view).errors@
            },
        },
{
    match report {
        ProjectProgress::Step { progress_tenths, message } => {
            view.progress_tenths = progress_tenths;
            view.message = message;
        },
        ProjectProgress::Error(e) => {
            view.errors.push(e);
        },
        ProjectProgress::Done => {},
    }
}

/// The message shown when a project file cannot be opened: an outdated
/// project (a field is missing) gets a hint, anything else its own text.
pub fn open_project_error_message(error: &str) -> (r: String)
    ensures
        r@ == (if contains_seq(error@, "missing field"@) {
            "Project version is outdated. Please update your .eucp file."@
        } else {
            error@
        }),
{
    if contains(error, "missing field") {
        owned("Project version is outdated. Please update your .eucp file.")
    } else {
        owned(error)
    }
}

/// What running a tool with `--version` gave.
#[derive(Debug)]
pub enum ToolProbe {
    /// The tool could not be started.
    NotFound,
    /// It ran and failed.
    Failed,
    /// It ran and succeeded, printing this.
    Succeeded(String),
}

/// The health check's lines and verdict.
pub struct HealthReport {
    pub lines: Vec<String>,
    /// Whether cargo and rustc are both usable.
    pub healthy: bool,
}

/// The lines of the health check for the probes of cargo and rustc (rustc is
/// only probed when cargo works) and whether assimp was found.
pub open spec fn health_lines(cargo: ToolProbe, rustc: Option<ToolProbe>, assimp: bool) -> Seq<Seq<char>> {
    let tools = match cargo {
        ToolProbe::Succeeded(v) => seq!["Does cargo exist? ✓ YES - "@ + trim_seq(v@)] + match rustc {
            Some(ToolProbe::Succeeded(w)) => seq!["Does rustc compiler exist? ✓ YES - "@ + trim_seq(w@)],
            Some(ToolProbe::Failed) => seq!["Does rustc compiler exist? ✗ NO - rustc command failed"@],
            _ => seq!["Does rustc compiler exist? ✗ NO - rustc not found in PATH"@],
        },
        ToolProbe::Failed => seq![
            "Does cargo exist? ✗ NO - cargo command failed"@,
            "Does rustc compiler exist? ✗ NO - cargo failed, cannot check rustc"@,
        ],
        ToolProbe::NotFound => seq![
            "Does cargo exist? ✗ NO - cargo not found in PATH"@,
            "Does rustc compiler exist? ✗ NO - cargo not found, cannot check rustc"@,
        ],
    };
    let lib = if assimp {
        "Does assimp lib exist? ✓ YES - Found assimp library"@
    } else {
        "Does assimp lib exist? ⚠ MAYBE - Could not definitively locate assimp, but it may be available through system package manager or vcpkg"@
    };
    let verdict = if health_ok(cargo, rustc) {
        "\n✓ All core tools are available!"@
    } else {
        "\n✗ Some required tools are missing. Please install Rust and Cargo."@
    };
    tools + seq![lib, verdict]
}

/// The installation is healthy when cargo and rustc both ran successfully.
pub open spec fn health_ok(cargo: ToolProbe, rustc: Option<ToolProbe>) -> bool {
    cargo is Succeeded && rustc matches Some(ToolProbe::Succeeded(_))
}

fn tool_line(head: &str, probe: &ToolProbe, failed: &str, missing: &str) -> (r: String)
    ensures
        r@ == match *probe {
            ToolProbe::Succeeded(v) => head@ + trim_seq(v@),
            ToolProbe::Failed => failed@,
            ToolProbe::NotFound => missing@,
        },
{
    match probe {
        ToolProbe::Succeeded(v) => {
            let t = trim(v.as_str());
            concat2(head, t.as_str())
        },
        ToolProbe::Failed => owned(failed),
        ToolProbe::NotFound => owned(missing),
    }
}

/// The health check: which tools the packaging needs are there. The
/// installation is unhealthy unless cargo and rustc both work; assimp is
/// only reported on.
pub fn health(cargo: ToolProbe, rustc: Option<ToolProbe>, assimp_found: bool) -> (r: HealthReport)
    ensures
        r.lines@.map_values(|s: String| s@) == health_lines(cargo, rustc, assimp_found),
        r.healthy == health_ok(cargo, rustc),
{
    let mut lines: Vec<String> = Vec::new();
    let ghost cargo_v = cargo;
    let healthy;
    match &cargo {
        ToolProbe::Succeeded(_) => {
            lines.push(tool_line("Does cargo exist? ✓ YES - ", &cargo, "", ""));
            match &rustc {
                Some(p) => {
                    lines.push(
                        tool_line(
                            "Does rustc compiler exist? ✓ YES - ",
                            p,
                            "Does rustc compiler exist? ✗ NO - rustc command failed",
                            "Does rustc compiler exist? ✗ NO - rustc not found in PATH",
                        ),
                    );
                    healthy = match p {
                        ToolProbe::Succeeded(_) => true,
                        _ => false,
                    };
                },
                None => {
                    lines.push(owned("Does rustc compiler exist? ✗ NO - rustc not found in PATH"));
                    healthy = false;
                },
            }
        },
        ToolProbe::Failed => {
            lines.push(owned("Does cargo exist? ✗ NO - cargo command failed"));
            lines.push(owned("Does rustc compiler exist? ✗ NO - cargo failed, cannot check rustc"));
            healthy = false;
        },
        ToolProbe::NotFound => {
            lines.push(owned("Does cargo exist? ✗ NO - cargo not found in PATH"));
            lines.push(
                owned("Does rustc compiler exist? ✗ NO - cargo not found, cannot check rustc"),
            );
            healthy = false;
        },
    }
    if assimp_found {
        lines.push(owned("Does assimp lib exist? ✓ YES - Found assimp library"));
    } else {
        lines.push(
            owned(
                "Does assimp lib exist? ⚠ MAYBE - Could not definitively locate assimp, but it may be available through system package manager or vcpkg",
            ),
        );
    }
    if healthy {
        lines.push(owned("\n✓ All core tools are available!"));
    } else {
        lines.push(owned("\n✗ Some required tools are missing. Please install Rust and Cargo."));
    }
    assert(lines@.map_values(|s: String| s@) =~= health_lines(cargo, rustc, assimp_found));
    HealthReport { lines, healthy }
}

/// The project files found are exactly the names ending with `.eucp`, each
/// position once, in listing order.
pub proof fn law_eucp_positions(names: Seq<Seq<char>>, n: nat)
    requires
        n <= names.len(),
        names.len() <= usize::MAX,
    ensures
        forall|i: int| #[trigger] eucp_positions(names, n).contains(i as usize) <== 0 <= i < n
            && ".eucp"@.is_suffix_of(names[i]),
        forall|k: int| 0 <= k < eucp_positions(names, n).len() ==> {
            &&& (#[trigger] eucp_positions(names, n)[k]) < n
            &&& ".eucp"@.is_suffix_of(names[eucp_positions(names, n)[k] as int])
        },
        forall|a: int, b: int| 0 <= a < b < eucp_positions(names, n).len() ==> eucp_positions(
            names,
            n,
        )[a] < eucp_positions(names, n)[b],
    decreases n,
{
    if n > 0 {
        law_eucp_positions(names, (n - 1) as nat);
        let m = eucp_positions(names, (n - 1) as nat);
        assert forall|i: int| 0 <= i < n && ".eucp"@.is_suffix_of(names[i]) implies #[trigger] eucp_positions(names, n).contains(i as usize) by {
            if i < n - 1 {
                assert(m.contains(i as usize));
                let j = m.index_of(i as usize);
                assert(eucp_positions(names, n)[j] == i as usize);
            } else {
                assert(eucp_positions(names, n)[m.len() as int] == i as usize);
            }
        }
        let r = eucp_positions(names, n);
        assert forall|a: int, b: int| 0 <= a < b < r.len() implies r[a] < r[b] by {
            if b == m.len() {
                assert(r[a] == m[a]);
            } else {
                assert(r[a] == m[a] && r[b] == m[b]);
            }
        }
        assert forall|k: int| 0 <= k < r.len() implies (#[trigger] r[k]) < n && ".eucp"@.is_suffix_of(
            names[r[k] as int],
        ) by {
            if k < m.len() {
                assert(r[k] == m[k]);
            }
        }
    }
}

/// The copies made for a file whose extension names glb (`g`), fbx (`f`),
/// obj (`o`) and png (`p`).
spec fn folders_for(g: bool, f: bool, o: bool, p: bool) -> Seq<ImportFolder> {
    let models = (if g { seq![ImportFolder::Models] } else { Seq::empty() }) + (if f {
        seq![ImportFolder::Models]
    } else {
        Seq::empty()
    }) + (if o { seq![ImportFolder::Models] } else { Seq::empty() });
    let all = models + (if p { seq![ImportFolder::Textures] } else { Seq::empty() });
    if all.len() == 0 {
        seq![ImportFolder::Resources]
    } else {
        all
    }
}

proof fn lemma_folders_for(g: bool, f: bool, o: bool, p: bool)
    ensures
        folders_for(g, f, o, p).len() >= 1,
        folders_for(g, f, o, p).contains(ImportFolder::Resources) == (!g && !f && !o && !p),
        folders_for(g, f, o, p).contains(ImportFolder::Textures) == p,
        folders_for(g, f, o, p).contains(ImportFolder::Models) == (g || f || o),
{
    let r = folders_for(g, f, o, p);
    if r.contains(ImportFolder::Textures) {
        let j = r.index_of(ImportFolder::Textures);
        assert(r[j] == ImportFolder::Textures);
    }
    if r.contains(ImportFolder::Models) {
        let j = r.index_of(ImportFolder::Models);
        assert(r[j] == ImportFolder::Models);
    }
    if r.contains(ImportFolder::Resources) {
        let j = r.index_of(ImportFolder::Resources);
        assert(r[j] == ImportFolder::Resources);
    }
    if p {
        assert(r[r.len() - 1] == ImportFolder::Textures);
    }
    if g || f || o {
        assert(r[0] == ImportFolder::Models);
    }
    if !g && !f && !o && !p {
        assert(r[0] == ImportFolder::Resources);
    }
}

/// An imported file goes to the models folder once for each model format
/// its extension names, to the textures folder if it names `png`, and to
/// the resources folder exactly when it names none of them; it always goes
/// somewhere.
pub proof fn law_import_folders(ext: Seq<char>)
    ensures
        import_folders_spec(ext).len() >= 1,
        import_folders_spec(ext).contains(ImportFolder::Resources) == (!contains_seq(ext, "glb"@)
            && !contains_seq(ext, "fbx"@) && !contains_seq(ext, "obj"@) && !contains_seq(
            ext,
            "png"@,
        )),
        import_folders_spec(ext).contains(ImportFolder::Textures) == contains_seq(ext, "png"@),
        import_folders_spec(ext).contains(ImportFolder::Models) == (contains_seq(ext, "glb"@)
            || contains_seq(ext, "fbx"@) || contains_seq(ext, "obj"@)),
{
    let g = contains_seq(ext, "glb"@);
    let f = contains_seq(ext, "fbx"@);
    let o = contains_seq(ext, "obj"@);
    let p = contains_seq(ext, "png"@);
    assert(import_folders_spec(ext) == folders_for(g, f, o, p));
    lemma_folders_for(g, f, o, p);
}

/// The installation is healthy exactly when cargo and rustc both ran: the
/// report always has four lines, the last one saying which verdict it is.
pub proof fn law_health(cargo: ToolProbe, rustc: Option<ToolProbe>, assimp: bool)
    ensures
        health_ok(cargo, rustc) == (cargo is Succeeded && rustc matches Some(ToolProbe::Succeeded(_))),
        health_lines(cargo, rustc, assimp).len() == 4,
        health_lines(cargo, rustc, assimp)[3] == (if cargo is Succeeded && rustc matches Some(
            ToolProbe::Succeeded(_),
        ) {
            "\n✓ All core tools are available!"@
        } else {
            "\n✗ Some required tools are missing. Please install Rust and Cargo."@
        }),
{
}

} // verus!
