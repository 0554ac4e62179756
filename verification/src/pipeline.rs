//! The pipeline orchestrator, as an explicit state machine.
//!
//! The machine owns no filesystem or process capability.  It hands its
//! driver one `Action` at a time; the driver performs the operation and
//! reports an `Event` back, and the machine answers with the next
//! action.  The run is linear, no state is re-entered, and any fatal
//! outcome moves the machine to an absorbing `Aborted` stage whose only
//! action is the failure exit — so nothing is rolled back, and nothing
//! further is attempted.  Only the final pruning of the template's two
//! placeholder sub-projects is allowed to fail without aborting the run.

use vstd::prelude::*;

use crate::descriptor::{leaf_rewrite, lines_model, rewrite_leaf, rewrite_root, root_rewrite};
use crate::scaffold::{
    app_source_lines, app_source_path, assets_dir, editor_dir, fonts_from, fonts_to,
    leaf_descriptor_path, leaf_from, project_dir, render_app_source, render_app_source_path,
    render_project_dir, render_under_project, render_under_slug, root_descriptor_path,
    sandbox_dir, shaders_from, shaders_to, src_dir, template_url, template_url_model,
};
use crate::slug::{normalize, slug_of};

verus! {

/// Why a run ended early.
#[derive(Clone, Copy, PartialEq, Eq, Structural, Debug)]
pub enum AbortReason {
    /// A filesystem entry already exists at the slug path.
    Collision,
    /// The template clone failed to launch or reported failure.
    FetchFailed,
    /// A directory creation, file write, file read or move failed.
    Io,
    /// The root descriptor holds fewer than the two trailer lines the
    /// rewrite replaces.
    ShortRootDescriptor,
}

/// The stage the machine is in: which action it has issued and awaits
/// the outcome of, or a terminal verdict.
#[derive(Clone, Copy, PartialEq, Eq, Structural, Debug)]
pub enum Stage {
    /// Awaiting the existence probe of the slug path.
    CollisionCheck,
    /// Awaiting the template clone.
    FetchTemplate,
    /// Awaiting creation of the project directory.
    ProjectDir,
    /// Awaiting creation of the asset directory.
    AssetsDir,
    /// Awaiting creation of the source directory.
    SrcDir,
    /// Awaiting the write of the generated starter source file.
    AppSource,
    /// Awaiting the move of the template's fonts.
    FontsMove,
    /// Awaiting the move of the template's shaders.
    ShadersMove,
    /// Awaiting the move of the leaf build descriptor.
    LeafMove,
    /// Awaiting the read of the relocated leaf descriptor.
    LeafRead,
    /// Awaiting the write of the rewritten leaf descriptor.
    LeafWrite,
    /// Awaiting the read of the root descriptor.
    RootRead,
    /// Awaiting the write of the rewritten root descriptor.
    RootWrite,
    /// Awaiting removal of the placeholder sandbox project.
    SandboxPrune,
    /// Awaiting removal of the placeholder editor project.
    EditorPrune,
    /// The run succeeded.
    Done,
    /// The run failed; nothing further is attempted.
    Aborted(AbortReason),
}

/// A filesystem or process operation the driver is asked to perform.
#[derive(PartialEq, Eq, Debug)]
pub enum Action {
    /// Probe whether a filesystem entry exists at the path.
    CheckExists(String),
    /// Clone the template repository (first field) recursively into the
    /// destination path (second field).
    CloneTemplate(String, String),
    /// Create a single directory; the parent must already exist.
    MakeDir(String),
    /// Overwrite the file at the path with the given lines.
    WriteLines(String, Vec<String>),
    /// Move (rename) the first path to the second.
    MovePath(String, String),
    /// Read the file at the path as a sequence of lines.
    ReadLines(String),
    /// Remove the directory tree at the path.
    RemoveTree(String),
    /// Stop: the run is over, with this process exit code.
    Quit(u8),
}

/// The mathematical shape of an `Action`.
pub enum ActionModel {
    CheckExists(Seq<char>),
    CloneTemplate(Seq<char>, Seq<char>),
    MakeDir(Seq<char>),
    WriteLines(Seq<char>, Seq<Seq<char>>),
    MovePath(Seq<char>, Seq<char>),
    ReadLines(Seq<char>),
    RemoveTree(Seq<char>),
    Quit(u8),
}

impl View for Action {
    type V = ActionModel;

    open spec fn view(&self) -> ActionModel {
        match self {
            Action::CheckExists(p) => ActionModel::CheckExists(p@),
            Action::CloneTemplate(url, dest) => ActionModel::CloneTemplate(url@, dest@),
            Action::MakeDir(p) => ActionModel::MakeDir(p@),
            Action::WriteLines(p, l) => ActionModel::WriteLines(p@, lines_model(l@)),
            Action::MovePath(a, b) => ActionModel::MovePath(a@, b@),
            Action::ReadLines(p) => ActionModel::ReadLines(p@),
            Action::RemoveTree(p) => ActionModel::RemoveTree(p@),
            Action::Quit(c) => ActionModel::Quit(*c),
        }
    }
}

/// The driver's report on the action it performed.
#[derive(PartialEq, Eq, Debug)]
pub enum Event {
    /// Answer to an existence probe.
    Exists(bool),
    /// Whether a clone, directory creation, write, move or removal
    /// succeeded.
    Finished(bool),
    /// The lines read from a file, or `None` when the read failed.
    Lines(Option<Vec<String>>),
}

/// The mathematical shape of an `Event`.
pub enum EventModel {
    Exists(bool),
    Finished(bool),
    Lines(Option<Seq<Seq<char>>>),
}

impl View for Event {
    type V = EventModel;

    open spec fn view(&self) -> EventModel {
        match self {
            Event::Exists(b) => EventModel::Exists(*b),
            Event::Finished(b) => EventModel::Finished(*b),
            Event::Lines(opt) => EventModel::Lines(
                match opt {
                    Some(l) => Some(lines_model(l@)),
                    None => None,
                },
            ),
        }
    }
}

/// The machine's mathematical state.
pub struct MachineModel {
    /// The raw display name.
    pub name: Seq<char>,
    /// The slug derived from it.
    pub slug: Seq<char>,
    /// The current stage.
    pub stage: Stage,
}

impl MachineModel {
    /// A well-formed machine: a non-empty display name, and the slug
    /// derived from it.
    pub open spec fn wf(self) -> bool {
        self.name.len() > 0 && self.slug == slug_of(self.name)
    }
}

/// Whether an event is the kind of report the current stage awaits.
pub open spec fn event_fits(st: Stage, e: EventModel) -> bool {
    match st {
        Stage::CollisionCheck => e is Exists,
        Stage::LeafRead => e is Lines,
        Stage::RootRead => e is Lines,
        Stage::Done => false,
        Stage::Aborted(_) => false,
        _ => e is Finished,
    }
}

/// The machine after an event, paired with the action it answers with.
pub open spec fn step_model(m: MachineModel, e: EventModel) -> (MachineModel, ActionModel)
    recommends
        event_fits(m.stage, e),
{
    match (m.stage, e) {
        (Stage::CollisionCheck, EventModel::Exists(true)) => (
            MachineModel { stage: Stage::Aborted(AbortReason::Collision), ..m },
            ActionModel::Quit(1u8),
        ),
        (Stage::CollisionCheck, EventModel::Exists(false)) => (
            MachineModel { stage: Stage::FetchTemplate, ..m },
            ActionModel::CloneTemplate(template_url_model(), m.slug),
        ),
        (Stage::FetchTemplate, EventModel::Finished(ok)) => if ok {
            (
                MachineModel { stage: Stage::ProjectDir, ..m },
                ActionModel::MakeDir(project_dir(m.slug, m.name)),
            )
        } else {
            (
                MachineModel { stage: Stage::Aborted(AbortReason::FetchFailed), ..m },
                ActionModel::Quit(1u8),
            )
        },
        (Stage::ProjectDir, EventModel::Finished(ok)) => if ok {
            (
                MachineModel { stage: Stage::AssetsDir, ..m },
                ActionModel::MakeDir(assets_dir(m.slug, m.name)),
            )
        } else {
            (MachineModel { stage: Stage::Aborted(AbortReason::Io), ..m }, ActionModel::Quit(1u8))
        },
        (Stage::AssetsDir, EventModel::Finished(ok)) => if ok {
            (
                MachineModel { stage: Stage::SrcDir, ..m },
                ActionModel::MakeDir(src_dir(m.slug, m.name)),
            )
        } else {
            (MachineModel { stage: Stage::Aborted(AbortReason::Io), ..m }, ActionModel::Quit(1u8))
        },
        (Stage::SrcDir, EventModel::Finished(ok)) => if ok {
            (
                MachineModel { stage: Stage::AppSource, ..m },
                ActionModel::WriteLines(app_source_path(m.slug, m.name), app_source_lines(m.name)),
            )
        } else {
            (MachineModel { stage: Stage::Aborted(AbortReason::Io), ..m }, ActionModel::Quit(1u8))
        },
        (Stage::AppSource, EventModel::Finished(ok)) => if ok {
            (
                MachineModel { stage: Stage::FontsMove, ..m },
                ActionModel::MovePath(fonts_from(m.slug), fonts_to(m.slug, m.name)),
            )
        } else {
            (MachineModel { stage: Stage::Aborted(AbortReason::Io), ..m }, ActionModel::Quit(1u8))
        },
        (Stage::FontsMove, EventModel::Finished(ok)) => if ok {
            (
                MachineModel { stage: Stage::ShadersMove, ..m },
                ActionModel::MovePath(shaders_from(m.slug), shaders_to(m.slug, m.name)),
            )
        } else {
            (MachineModel { stage: Stage::Aborted(AbortReason::Io), ..m }, ActionModel::Quit(1u8))
        },
        (Stage::ShadersMove, EventModel::Finished(ok)) => if ok {
            (
                MachineModel { stage: Stage::LeafMove, ..m },
                ActionModel::MovePath(leaf_from(m.slug), leaf_descriptor_path(m.slug, m.name)),
            )
        } else {
            (MachineModel { stage: Stage::Aborted(AbortReason::Io), ..m }, ActionModel::Quit(1u8))
        },
        (Stage::LeafMove, EventModel::Finished(ok)) => if ok {
            (
                MachineModel { stage: Stage::LeafRead, ..m },
                ActionModel::ReadLines(leaf_descriptor_path(m.slug, m.name)),
            )
        } else {
            (MachineModel { stage: Stage::Aborted(AbortReason::Io), ..m }, ActionModel::Quit(1u8))
        },
        (Stage::LeafRead, EventModel::Lines(Some(l))) => (
            MachineModel { stage: Stage::LeafWrite, ..m },
            ActionModel::WriteLines(leaf_descriptor_path(m.slug, m.name), leaf_rewrite(l, m.name)),
        ),
        (Stage::LeafRead, EventModel::Lines(None)) => (
            MachineModel { stage: Stage::Aborted(AbortReason::Io), ..m },
            ActionModel::Quit(1u8),
        ),
        (Stage::LeafWrite, EventModel::Finished(ok)) => if ok {
            (
                MachineModel { stage: Stage::RootRead, ..m },
                ActionModel::ReadLines(root_descriptor_path(m.slug)),
            )
        } else {
            (MachineModel { stage: Stage::Aborted(AbortReason::Io), ..m }, ActionModel::Quit(1u8))
        },
        (Stage::RootRead, EventModel::Lines(Some(l))) => if l.len() >= 2 {
            (
                MachineModel { stage: Stage::RootWrite, ..m },
                ActionModel::WriteLines(root_descriptor_path(m.slug), root_rewrite(l, m.name)),
            )
        } else {
            (
                MachineModel { stage: Stage::Aborted(AbortReason::ShortRootDescriptor), ..m },
                ActionModel::Quit(1u8),
            )
        },
        (Stage::RootRead, EventModel::Lines(None)) => (
            MachineModel { stage: Stage::Aborted(AbortReason::Io), ..m },
            ActionModel::Quit(1u8),
        ),
        (Stage::RootWrite, EventModel::Finished(ok)) => if ok {
            (
                MachineModel { stage: Stage::SandboxPrune, ..m },
                ActionModel::RemoveTree(sandbox_dir(m.slug)),
            )
        } else {
            (MachineModel { stage: Stage::Aborted(AbortReason::Io), ..m }, ActionModel::Quit(1u8))
        },
        (Stage::SandboxPrune, EventModel::Finished(_)) => (
            MachineModel { stage: Stage::EditorPrune, ..m },
            ActionModel::RemoveTree(editor_dir(m.slug)),
        ),
        (Stage::EditorPrune, EventModel::Finished(_)) => (
            MachineModel { stage: Stage::Done, ..m },
            ActionModel::Quit(0u8),
        ),
        _ => (m, ActionModel::Quit(1u8)),
    }
}

/// Whether an action changes the filesystem.  Existence probes, reads
/// and the final exit do not; everything else does.
pub open spec fn is_mutating(a: ActionModel) -> bool {
    match a {
        ActionModel::CheckExists(_) => false,
        ActionModel::ReadLines(_) => false,
        ActionModel::Quit(_) => false,
        _ => true,
    }
}

/// The actions a machine answers with along a sequence of events.  The
/// trace stops at the first event the current stage does not await
/// (in particular, at a terminal stage, which awaits none).
pub open spec fn trace(m: MachineModel, es: Seq<EventModel>) -> Seq<ActionModel>
    decreases es.len(),
{
    if es.len() == 0 {
        Seq::empty()
    } else if event_fits(m.stage, es[0]) {
        seq![step_model(m, es[0]).1] + trace(step_model(m, es[0]).0, es.skip(1))
    } else {
        Seq::empty()
    }
}

/// The pipeline orchestrator.
pub struct Pipeline {
    name: String,
    slug: String,
    stage: Stage,
}

impl View for Pipeline {
    type V = MachineModel;

    closed spec fn view(&self) -> MachineModel {
        MachineModel { name: self.name@, slug: self.slug@, stage: self.stage }
    }
}

impl Pipeline {
    /// Starts a run for a non-empty display name.  Derives the slug and
    /// asks first for the existence probe of the slug path: no mutating
    /// action is issued before that probe is answered.
    pub fn new(name: String) -> (r: (Pipeline, Action))
        requires
            name@.len() > 0,
        ensures
            r.0@.wf(),
            r.0@.name == name@,
            r.0@.slug == slug_of(name@),
            r.0@.stage == Stage::CollisionCheck,
            r.1@ == ActionModel::CheckExists(slug_of(name@)),
    {
        let slug = normalize(name.as_str());
        let probe = Action::CheckExists(slug.clone());
        (Pipeline { name, slug, stage: Stage::CollisionCheck }, probe)
    }

    /// The stage the machine is in.
    pub fn stage(&self) -> (s: Stage)
        ensures
            s == self@.stage,
    {
        self.stage
    }

    /// Whether an event is the kind of report the machine awaits.
    pub fn accepts(&self, e: &Event) -> (r: bool)
        ensures
            r == event_fits(self@.stage, e@),
    {
        match self.stage {
            Stage::CollisionCheck => matches!(e, Event::Exists(_)),
            Stage::LeafRead => matches!(e, Event::Lines(_)),
            Stage::RootRead => matches!(e, Event::Lines(_)),
            Stage::Done => false,
            Stage::Aborted(_) => false,
            _ => matches!(e, Event::Finished(_)),
        }
    }

    /// Takes the driver's report on the last action and answers with
    /// the next one.  A `Quit` answer ends the run: a terminal machine
    /// awaits no further event.
    pub fn handle(&mut self, e: Event) -> (a: Action)
        requires
            event_fits(old(self)@.stage, e@),
        ensures
            final(self)@ == step_model(old(self)@, e@).0,
            a@ == step_model(old(self)@, e@).1,
    {
        match (self.stage, e) {
            (Stage::CollisionCheck, Event::Exists(true)) => {
                self.stage = Stage::Aborted(AbortReason::Collision);
                Action::Quit(1)
            },
            (Stage::CollisionCheck, Event::Exists(false)) => {
                self.stage = Stage::FetchTemplate;
                Action::CloneTemplate(template_url(), self.slug.clone())
            },
            (Stage::FetchTemplate, Event::Finished(ok)) => {
                if ok {
                    self.stage = Stage::ProjectDir;
                    Action::MakeDir(render_project_dir(self.slug.as_str(), self.name.as_str()))
                } else {
                    self.stage = Stage::Aborted(AbortReason::FetchFailed);
                    Action::Quit(1)
                }
            },
            (Stage::ProjectDir, Event::Finished(ok)) => {
                if ok {
                    self.stage = Stage::AssetsDir;
                    Action::MakeDir(
                        render_under_project(self.slug.as_str(), self.name.as_str(), "/assets"),
                    )
                } else {
                    self.stage = Stage::Aborted(AbortReason::Io);
                    Action::Quit(1)
                }
            },
            (Stage::AssetsDir, Event::Finished(ok)) => {
                if ok {
                    self.stage = Stage::SrcDir;
                    Action::MakeDir(
                        render_under_project(self.slug.as_str(), self.name.as_str(), "/src"),
                    )
                } else {
                    self.stage = Stage::Aborted(AbortReason::Io);
                    Action::Quit(1)
                }
            },
            (Stage::SrcDir, Event::Finished(ok)) => {
                if ok {
                    self.stage = Stage::AppSource;
                    Action::WriteLines(
                        render_app_source_path(self.slug.as_str(), self.name.as_str()),
                        render_app_source(self.name.as_str()),
                    )
                } else {
                    self.stage = Stage::Aborted(AbortReason::Io);
                    Action::Quit(1)
                }
            },
            (Stage::AppSource, Event::Finished(ok)) => {
                if ok {
                    self.stage = Stage::FontsMove;
                    Action::MovePath(
                        render_under_slug(self.slug.as_str(), "/Steditor/assets/fonts"),
                        render_under_project(
                            self.slug.as_str(),
                            self.name.as_str(),
                            "/assets/fonts",
                        ),
                    )
                } else {
                    self.stage = Stage::Aborted(AbortReason::Io);
                    Action::Quit(1)
                }
            },
            (Stage::FontsMove, Event::Finished(ok)) => {
                if ok {
                    self.stage = Stage::ShadersMove;
                    Action::MovePath(
                        render_under_slug(self.slug.as_str(), "/Steditor/assets/shaders"),
                        render_under_project(
                            self.slug.as_str(),
                            self.name.as_str(),
                            "/assets/shaders",
                        ),
                    )
                } else {
                    self.stage = Stage::Aborted(AbortReason::Io);
                    Action::Quit(1)
                }
            },
            (Stage::ShadersMove, Event::Finished(ok)) => {
                if ok {
                    self.stage = Stage::LeafMove;
                    Action::MovePath(
                        render_under_slug(self.slug.as_str(), "/Steditor/premake5.lua"),
                        render_under_project(
                            self.slug.as_str(),
                            self.name.as_str(),
                            "/premake5.lua",
                        ),
                    )
                } else {
                    self.stage = Stage::Aborted(AbortReason::Io);
                    Action::Quit(1)
                }
            },
            (Stage::LeafMove, Event::Finished(ok)) => {
                if ok {
                    self.stage = Stage::LeafRead;
                    Action::ReadLines(
                        render_under_project(
                            self.slug.as_str(),
                            self.name.as_str(),
                            "/premake5.lua",
                        ),
                    )
                } else {
                    self.stage = Stage::Aborted(AbortReason::Io);
                    Action::Quit(1)
                }
            },
            (Stage::LeafRead, Event::Lines(Some(lines))) => {
                let mut lines = lines;
                rewrite_leaf(&mut lines, self.name.as_str());
                self.stage = Stage::LeafWrite;
                Action::WriteLines(
                    render_under_project(self.slug.as_str(), self.name.as_str(), "/premake5.lua"),
                    lines,
                )
            },
            (Stage::LeafRead, Event::Lines(None)) => {
                self.stage = Stage::Aborted(AbortReason::Io);
                Action::Quit(1)
            },
            (Stage::LeafWrite, Event::Finished(ok)) => {
                if ok {
                    self.stage = Stage::RootRead;
                    Action::ReadLines(render_under_slug(self.slug.as_str(), "/premake5.lua"))
                } else {
                    self.stage = Stage::Aborted(AbortReason::Io);
                    Action::Quit(1)
                }
            },
            (Stage::RootRead, Event::Lines(Some(lines))) => {
                match rewrite_root(lines, self.name.as_str()) {
                    Some(out) => {
                        self.stage = Stage::RootWrite;
                        Action::WriteLines(
                            render_under_slug(self.slug.as_str(), "/premake5.lua"),
                            out,
                        )
                    },
                    None => {
                        self.stage = Stage::Aborted(AbortReason::ShortRootDescriptor);
                        Action::Quit(1)
                    },
                }
            },
            (Stage::RootRead, Event::Lines(None)) => {
                self.stage = Stage::Aborted(AbortReason::Io);
                Action::Quit(1)
            },
            (Stage::RootWrite, Event::Finished(ok)) => {
                if ok {
                    self.stage = Stage::SandboxPrune;
                    Action::RemoveTree(render_under_slug(self.slug.as_str(), "/Sandbox"))
                } else {
                    self.stage = Stage::Aborted(AbortReason::Io);
                    Action::Quit(1)
                }
            },
            (Stage::SandboxPrune, Event::Finished(_)) => {
                self.stage = Stage::EditorPrune;
                Action::RemoveTree(render_under_slug(self.slug.as_str(), "/Steditor"))
            },
            (Stage::EditorPrune, Event::Finished(_)) => {
                self.stage = Stage::Done;
                Action::Quit(0)
            },
            (_, _) => {
                proof {
                    assert(false);
                }
                Action::Quit(1)
            },
        }
    }
}

/// The display name and the slug are fixed at startup: no step of the
/// machine changes them, so the slug is never re-derived, and a
/// well-formed machine stays well-formed.
pub proof fn lemma_names_fixed(m: MachineModel, e: EventModel)
    ensures
        step_model(m, e).0.name == m.name,
        step_model(m, e).0.slug == m.slug,
        m.wf() ==> step_model(m, e).0.wf(),
{
}

/// No action of the trace changes the filesystem.
pub open spec fn mutates_nothing(t: Seq<ActionModel>) -> bool {
    forall|i: int| 0 <= i < t.len() ==> !is_mutating(#[trigger] t[i])
}

/// The only action of the trace that changes the filesystem, if any, is
/// the given clone.
pub open spec fn mutates_clone_alone(t: Seq<ActionModel>, url: Seq<char>, dest: Seq<char>) -> bool {
    forall|i: int|
        0 <= i < t.len() && is_mutating(#[trigger] t[i]) ==> t[i] == ActionModel::CloneTemplate(
            url,
            dest,
        )
}

proof fn lemma_trace_stopped(m: MachineModel, es: Seq<EventModel>)
    requires
        m.stage is Aborted || m.stage is Done,
    ensures
        trace(m, es) == Seq::<ActionModel>::empty(),
{
}

/// The clean run: when the slug path is free, every clone, creation,
/// write, move and removal succeeds, both descriptors are read back,
/// and the root descriptor holds at least two lines, the machine issues
/// exactly the documented operations, in order — clone, three directory
/// creations, the generated source write, three relocations, the two
/// descriptor rewrites, the two prunings — and ends with the success
/// exit.
pub proof fn lemma_clean_run(m: MachineModel, leaf: Seq<Seq<char>>, root: Seq<Seq<char>>)
    requires
        m.stage == Stage::CollisionCheck,
        root.len() >= 2,
    ensures
        trace(
            m,
            seq![
                EventModel::Exists(false),
                EventModel::Finished(true),
                EventModel::Finished(true),
                EventModel::Finished(true),
                EventModel::Finished(true),
                EventModel::Finished(true),
                EventModel::Finished(true),
                EventModel::Finished(true),
                EventModel::Finished(true),
                EventModel::Lines(Some(leaf)),
                EventModel::Finished(true),
                EventModel::Lines(Some(root)),
                EventModel::Finished(true),
                EventModel::Finished(true),
                EventModel::Finished(true),
            ],
        ) == seq![
            ActionModel::CloneTemplate(template_url_model(), m.slug),
            ActionModel::MakeDir(project_dir(m.slug, m.name)),
            ActionModel::MakeDir(assets_dir(m.slug, m.name)),
            ActionModel::MakeDir(src_dir(m.slug, m.name)),
            ActionModel::WriteLines(app_source_path(m.slug, m.name), app_source_lines(m.name)),
            ActionModel::MovePath(fonts_from(m.slug), fonts_to(m.slug, m.name)),
            ActionModel::MovePath(shaders_from(m.slug), shaders_to(m.slug, m.name)),
            ActionModel::MovePath(leaf_from(m.slug), leaf_descriptor_path(m.slug, m.name)),
            ActionModel::ReadLines(leaf_descriptor_path(m.slug, m.name)),
            ActionModel::WriteLines(
                leaf_descriptor_path(m.slug, m.name),
                leaf_rewrite(leaf, m.name),
            ),
            ActionModel::ReadLines(root_descriptor_path(m.slug)),
            ActionModel::WriteLines(root_descriptor_path(m.slug), root_rewrite(root, m.name)),
            ActionModel::RemoveTree(sandbox_dir(m.slug)),
            ActionModel::RemoveTree(editor_dir(m.slug)),
            ActionModel::Quit(0u8),
        ],
{
    let es = seq![
        EventModel::Exists(false),
        EventModel::Finished(true),
        EventModel::Finished(true),
        EventModel::Finished(true),
        EventModel::Finished(true),
        EventModel::Finished(true),
        EventModel::Finished(true),
        EventModel::Finished(true),
        EventModel::Finished(true),
        EventModel::Lines(Some(leaf)),
        EventModel::Finished(true),
        EventModel::Lines(Some(root)),
        EventModel::Finished(true),
        EventModel::Finished(true),
        EventModel::Finished(true),
    ];
    let m1 = step_model(m, es[0]).0;
    let m2 = step_model(m1, es[1]).0;
    let m3 = step_model(m2, es[2]).0;
    let m4 = step_model(m3, es[3]).0;
    let m5 = step_model(m4, es[4]).0;
    let m6 = step_model(m5, es[5]).0;
    let m7 = step_model(m6, es[6]).0;
    let m8 = step_model(m7, es[7]).0;
    let m9 = step_model(m8, es[8]).0;
    let m10 = step_model(m9, es[9]).0;
    let m11 = step_model(m10, es[10]).0;
    let m12 = step_model(m11, es[11]).0;
    let m13 = step_model(m12, es[12]).0;
    let m14 = step_model(m13, es[13]).0;
    let m15 = step_model(m14, es[14]).0;
    assert(m1.stage == Stage::FetchTemplate);
    assert(m2.stage == Stage::ProjectDir);
    assert(m3.stage == Stage::AssetsDir);
    assert(m4.stage == Stage::SrcDir);
    assert(m5.stage == Stage::AppSource);
    assert(m6.stage == Stage::FontsMove);
    assert(m7.stage == Stage::ShadersMove);
    assert(m8.stage == Stage::LeafMove);
    assert(m9.stage == Stage::LeafRead);
    assert(m10.stage == Stage::LeafWrite);
    assert(m11.stage == Stage::RootRead);
    assert(m12.stage == Stage::RootWrite);
    assert(m13.stage == Stage::SandboxPrune);
    assert(m14.stage == Stage::EditorPrune);
    assert(m15.stage == Stage::Done);
    assert(es.skip(1).skip(1) =~= es.skip(2));
    assert(es.skip(2).skip(1) =~= es.skip(3));
    assert(es.skip(3).skip(1) =~= es.skip(4));
    assert(es.skip(4).skip(1) =~= es.skip(5));
    assert(es.skip(5).skip(1) =~= es.skip(6));
    assert(es.skip(6).skip(1) =~= es.skip(7));
    assert(es.skip(7).skip(1) =~= es.skip(8));
    assert(es.skip(8).skip(1) =~= es.skip(9));
    assert(es.skip(9).skip(1) =~= es.skip(10));
    assert(es.skip(10).skip(1) =~= es.skip(11));
    assert(es.skip(11).skip(1) =~= es.skip(12));
    assert(es.skip(12).skip(1) =~= es.skip(13));
    assert(es.skip(13).skip(1) =~= es.skip(14));
    assert(es.skip(14).skip(1) =~= es.skip(15));
    assert(es.skip(15).len() == 0);
    assert(trace(m15, es.skip(15)) == Seq::<ActionModel>::empty());
    assert(trace(m14, es.skip(14)) =~= seq![ActionModel::Quit(0u8)]);
    assert(trace(m13, es.skip(13)) =~= seq![ActionModel::RemoveTree(editor_dir(m.slug))] + trace(
        m14,
        es.skip(14),
    ));
    assert(trace(m12, es.skip(12)) =~= seq![ActionModel::RemoveTree(sandbox_dir(m.slug))] + trace(
        m13,
        es.skip(13),
    ));
    assert(trace(m11, es.skip(11)) =~= seq![
        ActionModel::WriteLines(root_descriptor_path(m.slug), root_rewrite(root, m.name)),
    ] + trace(m12, es.skip(12)));
    assert(trace(m10, es.skip(10)) =~= seq![
        ActionModel::ReadLines(root_descriptor_path(m.slug)),
    ] + trace(m11, es.skip(11)));
    assert(trace(m9, es.skip(9)) =~= seq![
        ActionModel::WriteLines(leaf_descriptor_path(m.slug, m.name), leaf_rewrite(leaf, m.name)),
    ] + trace(m10, es.skip(10)));
    assert(trace(m8, es.skip(8)) =~= seq![
        ActionModel::ReadLines(leaf_descriptor_path(m.slug, m.name)),
    ] + trace(m9, es.skip(9)));
    assert(trace(m7, es.skip(7)) =~= seq![
        ActionModel::MovePath(leaf_from(m.slug), leaf_descriptor_path(m.slug, m.name)),
    ] + trace(m8, es.skip(8)));
    assert(trace(m6, es.skip(6)) =~= seq![
        ActionModel::MovePath(shaders_from(m.slug), shaders_to(m.slug, m.name)),
    ] + trace(m7, es.skip(7)));
    assert(trace(m5, es.skip(5)) =~= seq![
        ActionModel::MovePath(fonts_from(m.slug), fonts_to(m.slug, m.name)),
    ] + trace(m6, es.skip(6)));
    assert(trace(m4, es.skip(4)) =~= seq![
        ActionModel::WriteLines(app_source_path(m.slug, m.name), app_source_lines(m.name)),
    ] + trace(m5, es.skip(5)));
    assert(trace(m3, es.skip(3)) =~= seq![ActionModel::MakeDir(src_dir(m.slug, m.name))] + trace(
        m4,
        es.skip(4),
    ));
    assert(trace(m2, es.skip(2)) =~= seq![ActionModel::MakeDir(assets_dir(m.slug, m.name))]
        + trace(m3, es.skip(3)));
    assert(trace(m1, es.skip(1)) =~= seq![ActionModel::MakeDir(project_dir(m.slug, m.name))]
        + trace(m2, es.skip(2)));
    assert(trace(m, es) =~= seq![
        ActionModel::CloneTemplate(template_url_model(), m.slug),
    ] + trace(m1, es.skip(1)));
    assert(trace(m, es) =~= seq![
        ActionModel::CloneTemplate(template_url_model(), m.slug),
        ActionModel::MakeDir(project_dir(m.slug, m.name)),
        ActionModel::MakeDir(assets_dir(m.slug, m.name)),
        ActionModel::MakeDir(src_dir(m.slug, m.name)),
        ActionModel::WriteLines(app_source_path(m.slug, m.name), app_source_lines(m.name)),
        ActionModel::MovePath(fonts_from(m.slug), fonts_to(m.slug, m.name)),
        ActionModel::MovePath(shaders_from(m.slug), shaders_to(m.slug, m.name)),
        ActionModel::MovePath(leaf_from(m.slug), leaf_descriptor_path(m.slug, m.name)),
        ActionModel::ReadLines(leaf_descriptor_path(m.slug, m.name)),
        ActionModel::WriteLines(leaf_descriptor_path(m.slug, m.name), leaf_rewrite(leaf, m.name)),
        ActionModel::ReadLines(root_descriptor_path(m.slug)),
        ActionModel::WriteLines(root_descriptor_path(m.slug), root_rewrite(root, m.name)),
        ActionModel::RemoveTree(sandbox_dir(m.slug)),
        ActionModel::RemoveTree(editor_dir(m.slug)),
        ActionModel::Quit(0u8),
    ]);
}

/// Collision guard: when the existence probe finds the slug path
/// already taken, the machine aborts at once.  Whatever events follow,
/// the only action it ever answers with is the failure exit, so a run
/// that hits a collision performs zero mutating filesystem operations —
/// the probe itself, the only action issued before, mutates nothing.
pub proof fn lemma_collision_guard(m: MachineModel, rest: Seq<EventModel>)
    requires
        m.stage == Stage::CollisionCheck,
    ensures
        trace(m, seq![EventModel::Exists(true)] + rest) == seq![ActionModel::Quit(1u8)],
        mutates_nothing(trace(m, seq![EventModel::Exists(true)] + rest)),
        !is_mutating(ActionModel::CheckExists(m.slug)),
{
    let es = seq![EventModel::Exists(true)] + rest;
    assert(es[0] == EventModel::Exists(true));
    let m1 = step_model(m, es[0]).0;
    assert(m1.stage == Stage::Aborted(AbortReason::Collision));
    lemma_trace_stopped(m1, es.skip(1));
    assert(trace(m, es) =~= seq![ActionModel::Quit(1u8)]);
}

/// Fetch failure: when the slug path is free but the template clone
/// then fails, the machine aborts at once.  Whatever events follow, the
/// only mutating action of the whole run is the clone of the slug
/// target itself: no scaffold, relocation, rewrite or prune action is
/// ever issued, and the run ends with the failure exit.
pub proof fn lemma_fetch_failure_guard(m: MachineModel, rest: Seq<EventModel>)
    requires
        m.stage == Stage::CollisionCheck,
    ensures
        trace(m, seq![EventModel::Exists(false), EventModel::Finished(false)] + rest) == seq![
            ActionModel::CloneTemplate(template_url_model(), m.slug),
            ActionModel::Quit(1u8),
        ],
        mutates_clone_alone(
            trace(m, seq![EventModel::Exists(false), EventModel::Finished(false)] + rest),
            template_url_model(),
            m.slug,
        ),
{
    let es = seq![EventModel::Exists(false), EventModel::Finished(false)] + rest;
    assert(es[0] == EventModel::Exists(false));
    let m1 = step_model(m, es[0]).0;
    assert(m1.stage == Stage::FetchTemplate);
    let es1 = es.skip(1);
    assert(es1[0] == EventModel::Finished(false));
    let m2 = step_model(m1, es1[0]).0;
    assert(m2.stage == Stage::Aborted(AbortReason::FetchFailed));
    lemma_trace_stopped(m2, es1.skip(1));
    assert(trace(m1, es1) =~= seq![ActionModel::Quit(1u8)]);
    assert(trace(m, es) =~= seq![
        ActionModel::CloneTemplate(template_url_model(), m.slug),
        ActionModel::Quit(1u8),
    ]);
}

} // verus!
