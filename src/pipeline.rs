//! The build orchestrator and chart packager, as a state machine.
//!
//! The machine decides; its driver acts. The driver asks for the next
//! action, performs it (an external command, a file check, rendering the
//! chart) and hands back what came of it as an event. The steps run in a
//! fixed order and the first failure ends the run: build, push (if asked
//! for), the snapshot sequence (if asked for), then the chart. The workspace
//! is never removed, whatever the outcome.
use vstd::prelude::*;
use crate::error::{Artifact, PackError, Step};
use crate::manifest::ServiceMetadata;
use crate::text::{i32_value, parse_i32, push_str, texts_view, trim_text, trimmed};

verus! {

/// The rendered build file, at the workspace root.
pub const BUILD_FILE: &'static str = "./Dockerfile";

/// The snapshot archive, at the workspace root.
pub const SNAPSHOT_ARCHIVE: &'static str = "project.tar.gz";

/// Where the packing helper leaves the snapshot inside the container.
pub const SNAPSHOT_SOURCE: &'static str = ":/tmp/project.tar.gz";

/// The helper that packs the snapshot inside the container, followed by a space.
pub const SNAPSHOT_HELPER: &'static str = "/scripts/zipper.sh ";

/// The extension of a packaged chart.
pub const CHART_EXTENSION: &'static str = ".tgz";

/// The external engine that a step runs.
#[derive(Clone, Copy, PartialEq, Eq, Structural, Debug)]
pub enum Tool {
    /// The container engine.
    Container,
    /// The chart engine.
    Chart,
}

impl Tool {
    /// The program that runs this engine.
    pub fn program(&self) -> (r: &'static str)
        ensures
            r@ == (if *self is Container {
                "docker"@
            } else {
                "helm"@
            }),
    {
        match self {
            Tool::Container => "docker",
            Tool::Chart => "helm",
        }
    }
}

/// Where a run stands.
#[derive(Clone, Copy, PartialEq, Eq, Structural, Debug)]
pub enum Stage {
    Build,
    Push,
    SnapshotStart,
    SnapshotWait,
    SnapshotInspect,
    SnapshotCopy,
    SnapshotRemove,
    SnapshotCheck,
    ChartPrepare,
    ChartLint,
    ChartPackage,
    ChartCheck,
    Done,
    Failed(PackError),
}

/// A state of the machine.
pub struct Pipeline {
    image_name: String,
    push: bool,
    snapshot: bool,
    project_dir: String,
    stage: Stage,
    container: String,
    chart_name: String,
    chart_version: String,
}

/// A state of the machine, as values.
pub struct PipelineView {
    pub image_name: Seq<char>,
    pub push: bool,
    pub snapshot: bool,
    pub project_dir: Seq<char>,
    pub stage: Stage,
    pub container: Seq<char>,
    pub chart_name: Seq<char>,
    pub chart_version: Seq<char>,
}

impl View for Pipeline {
    type V = PipelineView;

    closed spec fn view(&self) -> PipelineView {
        PipelineView {
            image_name: self.image_name@,
            push: self.push,
            snapshot: self.snapshot,
            project_dir: self.project_dir@,
            stage: self.stage,
            container: self.container@,
            chart_name: self.chart_name@,
            chart_version: self.chart_version@,
        }
    }
}

/// An external command to run, in the workspace.
#[derive(Debug)]
pub struct Invocation {
    pub step: Step,
    pub tool: Tool,
    pub args: Vec<String>,
    /// Whether the standard output is to be captured and reported; else it
    /// goes to the operator.
    pub capture_output: bool,
}

/// What the driver is to do next.
#[derive(Debug)]
pub enum Action {
    /// Run an external command and report its exit code and standard output.
    Run(Invocation),
    /// Report whether this file exists at the workspace root.
    CheckFile(String),
    /// Read the service metadata, render the chart files under a directory
    /// named after the service, and report the metadata.
    PrepareChart,
    /// The run is over: the packaged chart's file name, or why it stopped.
    Finish(Result<String, PackError>),
}

/// What came of an action.
pub enum Event {
    /// An external command ended with this exit code and standard output.
    Exited { code: i32, output: String },
    /// The checked file exists, or not.
    Checked(bool),
    /// The chart was prepared for this metadata, or preparing it failed.
    ChartPrepared(Result<ServiceMetadata, PackError>),
}

pub enum ActionView {
    Run { step: Step, tool: Tool, args: Seq<Seq<char>>, capture_output: bool },
    CheckFile { file: Seq<char> },
    PrepareChart,
    Finish { outcome: Result<Seq<char>, PackError> },
}

pub enum EventView {
    Exited { code: i32, output: Seq<char> },
    Checked { present: bool },
    ChartPrepared { outcome: Result<(Seq<char>, Seq<char>), PackError> },
}

pub open spec fn action_view(a: Action) -> ActionView {
    match a {
        Action::Run(inv) => ActionView::Run {
            step: inv.step,
            tool: inv.tool,
            args: texts_view(inv.args@),
            capture_output: inv.capture_output,
        },
        Action::CheckFile(f) => ActionView::CheckFile { file: f@ },
        Action::PrepareChart => ActionView::PrepareChart,
        Action::Finish(r) => ActionView::Finish {
            outcome: match r {
                Ok(f) => Ok(f@),
                Err(e) => Err(e),
            },
        },
    }
}

pub open spec fn event_view(e: Event) -> EventView {
    match e {
        Event::Exited { code, output } => EventView::Exited { code, output: output@ },
        Event::Checked(b) => EventView::Checked { present: b },
        Event::ChartPrepared(r) => EventView::ChartPrepared {
            outcome: match r {
                Ok(m) => Ok(m@),
                Err(e) => Err(e),
            },
        },
    }
}

/// The state a run starts in.
pub open spec fn initial(image_name: Seq<char>, push: bool, snapshot: bool, project_dir: Seq<char>) -> PipelineView {
    PipelineView {
        image_name,
        push,
        snapshot,
        project_dir,
        stage: Stage::Build,
        container: Seq::empty(),
        chart_name: Seq::empty(),
        chart_version: Seq::empty(),
    }
}

/// The external step that a stage runs, if it runs one.
pub open spec fn stage_step(s: Stage) -> Option<Step> {
    match s {
        Stage::Build => Some(Step::Build),
        Stage::Push => Some(Step::Push),
        Stage::SnapshotStart => Some(Step::SnapshotStart),
        Stage::SnapshotWait => Some(Step::SnapshotWait),
        Stage::SnapshotInspect => Some(Step::SnapshotInspect),
        Stage::SnapshotCopy => Some(Step::SnapshotCopy),
        Stage::SnapshotRemove => Some(Step::SnapshotRemove),
        Stage::ChartLint => Some(Step::ChartLint),
        Stage::ChartPackage => Some(Step::ChartPackage),
        _ => None,
    }
}

/// The file name of the packaged chart.
pub open spec fn chart_file(v: PipelineView) -> Seq<char> {
    v.chart_name + "-"@ + v.chart_version + CHART_EXTENSION@
}

/// The arguments of the command that a stage runs.
pub open spec fn step_args(v: PipelineView) -> Seq<Seq<char>> {
    match v.stage {
        Stage::Build => seq!["build"@, "-f"@, BUILD_FILE@, "-t"@, v.image_name, "."@],
        Stage::Push => seq!["push"@, v.image_name],
        Stage::SnapshotStart => seq![
            "run"@,
            "-d"@,
            "--entrypoint"@,
            "bash"@,
            v.image_name,
            "-c"@,
            SNAPSHOT_HELPER@ + v.project_dir,
        ],
        Stage::SnapshotWait => seq!["wait"@, v.container],
        Stage::SnapshotInspect => seq!["inspect"@, "-f"@, "{{.State.ExitCode}}"@, v.container],
        Stage::SnapshotCopy => seq!["cp"@, v.container + SNAPSHOT_SOURCE@, SNAPSHOT_ARCHIVE@],
        Stage::SnapshotRemove => seq!["rm"@, v.container],
        Stage::ChartLint => seq!["lint"@, v.chart_name],
        Stage::ChartPackage => seq!["package"@, v.chart_name],
        _ => Seq::empty(),
    }
}

/// The engine that runs a step.
pub open spec fn step_tool(s: Step) -> Tool {
    if s is ChartLint || s is ChartPackage {
        Tool::Chart
    } else {
        Tool::Container
    }
}

/// What the driver is to do in state `v`.
pub open spec fn action_of(v: PipelineView) -> ActionView {
    match stage_step(v.stage) {
        Some(step) => ActionView::Run {
            step,
            tool: step_tool(step),
            args: step_args(v),
            capture_output: step is SnapshotStart || step is SnapshotInspect,
        },
        None => match v.stage {
            Stage::SnapshotCheck => ActionView::CheckFile { file: SNAPSHOT_ARCHIVE@ },
            Stage::ChartPrepare => ActionView::PrepareChart,
            Stage::ChartCheck => ActionView::CheckFile { file: chart_file(v) },
            Stage::Done => ActionView::Finish { outcome: Ok(chart_file(v)) },
            Stage::Failed(e) => ActionView::Finish { outcome: Err(e) },
            _ => ActionView::PrepareChart,
        },
    }
}

/// Where a run goes once the push point is passed.
pub open spec fn after_push(v: PipelineView) -> Stage {
    if v.snapshot {
        Stage::SnapshotStart
    } else {
        Stage::ChartPrepare
    }
}

/// Where a run goes after a successful build.
pub open spec fn after_build(v: PipelineView) -> Stage {
    if v.push {
        Stage::Push
    } else {
        after_push(v)
    }
}

pub open spec fn at(v: PipelineView, s: Stage) -> PipelineView {
    PipelineView { stage: s, ..v }
}

/// The state after the step of `v` exited with status zero and printed `output`.
pub open spec fn succeeded(v: PipelineView, output: Seq<char>) -> PipelineView {
    match v.stage {
        Stage::Build => at(v, after_build(v)),
        Stage::Push => at(v, after_push(v)),
        Stage::SnapshotStart => PipelineView {
            stage: Stage::SnapshotWait,
            container: trimmed(output),
            ..v
        },
        Stage::SnapshotWait => at(v, Stage::SnapshotInspect),
        Stage::SnapshotInspect => match i32_value(trimmed(output)) {
            Some(c) => if c == 0 {
                at(v, Stage::SnapshotCopy)
            } else {
                at(v, Stage::Failed(PackError::StepFailed { step: Step::SnapshotPack, code: c }))
            },
            None => at(v, Stage::Failed(PackError::StepOutput { step: Step::SnapshotInspect })),
        },
        Stage::SnapshotCopy => at(v, Stage::SnapshotRemove),
        Stage::SnapshotRemove => at(v, Stage::SnapshotCheck),
        Stage::ChartLint => at(v, Stage::ChartPackage),
        Stage::ChartPackage => at(v, Stage::ChartCheck),
        _ => v,
    }
}

/// The state after event `e` in state `v`. An event that does not answer
/// the pending action leaves the state as it is.
pub open spec fn transition(v: PipelineView, e: EventView) -> PipelineView {
    match e {
        EventView::Exited { code, output } => match stage_step(v.stage) {
            Some(step) => if code != 0 {
                at(v, Stage::Failed(PackError::StepFailed { step, code }))
            } else {
                succeeded(v, output)
            },
            None => v,
        },
        EventView::Checked { present } => match v.stage {
            Stage::SnapshotCheck => if present {
                at(v, Stage::ChartPrepare)
            } else {
                at(
                    v,
                    Stage::Failed(PackError::ArtifactMissing { artifact: Artifact::SnapshotArchive }),
                )
            },
            Stage::ChartCheck => if present {
                at(v, Stage::Done)
            } else {
                at(
                    v,
                    Stage::Failed(PackError::ArtifactMissing { artifact: Artifact::ChartArchive }),
                )
            },
            _ => v,
        },
        EventView::ChartPrepared { outcome } => match v.stage {
            Stage::ChartPrepare => match outcome {
                Ok(m) => PipelineView {
                    stage: Stage::ChartLint,
                    chart_name: m.0,
                    chart_version: m.1,
                    ..v
                },
                Err(err) => at(v, Stage::Failed(err)),
            },
            _ => v,
        },
    }
}

/// The state after the events `es`, in order, from `v`.
pub open spec fn run_events(v: PipelineView, es: Seq<EventView>) -> PipelineView
    decreases es.len(),
{
    if es.len() == 0 {
        v
    } else {
        transition(run_events(v, es.drop_last()), es.last())
    }
}

/// Whether a stage belongs to the chart packager (or follows it).
pub open spec fn is_chart_stage(s: Stage) -> bool {
    s is ChartPrepare || s is ChartLint || s is ChartPackage || s is ChartCheck || s is Done
}

/// Whether the `j`-th of the events `es`, from `v0`, answered the build step
/// with success.
pub open spec fn build_succeeded_at(v0: PipelineView, es: Seq<EventView>, j: int) -> bool {
    &&& 0 <= j < es.len()
    &&& run_events(v0, es.take(j)).stage == Stage::Build
    &&& es[j] matches EventView::Exited { code, .. } && code == 0
}

proof fn lemma_failed_is_final(v: PipelineView, es: Seq<EventView>)
    requires
        v.stage is Failed,
    ensures
        run_events(v, es) == v,
    decreases es.len(),
{
    if es.len() > 0 {
        lemma_failed_is_final(v, es.drop_last());
    }
}

/// A failed build ends the run: the state records the build step and its
/// exit code, the driver is told to finish with that error, and no later
/// event moves the run on, so no push or any later step is ever started.
pub proof fn lemma_build_failure_halts(
    v: PipelineView,
    code: i32,
    output: Seq<char>,
    later: Seq<EventView>,
)
    requires
        v.stage == Stage::Build,
        code != 0,
    ensures
        ({
            let after = run_events(transition(v, EventView::Exited { code, output }), later);
            &&& after.stage == Stage::Failed(PackError::StepFailed { step: Step::Build, code })
            &&& action_of(after) == ActionView::Finish {
                outcome: Err(PackError::StepFailed { step: Step::Build, code }),
            }
        }),
{
    lemma_failed_is_final(transition(v, EventView::Exited { code, output }), later);
}

/// Chart work follows a successful build: in any run from its start, a
/// state at a chart stage comes after an event that answered the build step
/// with success.
pub proof fn lemma_build_precedes_chart(v0: PipelineView, es: Seq<EventView>)
    requires
        v0.stage == Stage::Build,
    ensures
        is_chart_stage(run_events(v0, es).stage) ==> exists|j: int|
            #[trigger] build_succeeded_at(v0, es, j),
{
    lemma_build_reached(v0, es);
}

proof fn lemma_build_reached(v0: PipelineView, es: Seq<EventView>)
    requires
        v0.stage == Stage::Build,
    ensures
        ({
            let s = run_events(v0, es).stage;
            ||| s == Stage::Build
            ||| s matches Stage::Failed(PackError::StepFailed { step: Step::Build, .. })
            ||| exists|j: int| #[trigger] build_succeeded_at(v0, es, j)
        }),
    decreases es.len(),
{
    if es.len() > 0 {
        let p = es.drop_last();
        let n = p.len() as int;
        lemma_build_reached(v0, p);
        let sp = run_events(v0, p);
        assert(es.take(n) =~= p);
        if exists|j: int| #[trigger] build_succeeded_at(v0, p, j) {
            let j = choose|j: int| #[trigger] build_succeeded_at(v0, p, j);
            assert(es.take(j) =~= p.take(j));
            assert(build_succeeded_at(v0, es, j));
        } else if sp.stage == Stage::Build {
            if es.last() matches EventView::Exited { code, .. } && code == 0 {
                assert(build_succeeded_at(v0, es, n));
            }
        }
    }
}

fn text(s: &str) -> (r: String)
    ensures
        r@ == s@,
{
    s.to_owned()
}

fn joined(a: &str, b: &str) -> (r: String)
    ensures
        r@ == a@ + b@,
{
    let mut r = String::new();
    push_str(&mut r, a);
    push_str(&mut r, b);
    r
}

impl Pipeline {
    /// The start of a run that builds `image_name` from the workspace, pushes
    /// it if `push`, extracts a snapshot of `project_dir` if `snapshot`, and
    /// packages the chart.
    pub fn new(image_name: String, push: bool, snapshot: bool, project_dir: String) -> (r: Pipeline)
        ensures
            r@ == initial(image_name@, push, snapshot, project_dir@),
    {
        Pipeline {
            image_name,
            push,
            snapshot,
            project_dir,
            stage: Stage::Build,
            container: String::new(),
            chart_name: String::new(),
            chart_version: String::new(),
        }
    }

    /// Where the run stands.
    pub fn stage(&self) -> (r: Stage)
        ensures
            r == self@.stage,
    {
        self.stage
    }

    /// The file name of the packaged chart.
    pub fn chart_file_name(&self) -> (r: String)
        ensures
            r@ == chart_file(self@),
    {
        let mut r = String::new();
        push_str(&mut r, self.chart_name.as_str());
        push_str(&mut r, "-");
        push_str(&mut r, self.chart_version.as_str());
        push_str(&mut r, CHART_EXTENSION);
        r
    }

    fn command_args(&self) -> (r: Vec<String>)
        requires
            stage_step(self@.stage) is Some,
        ensures
            texts_view(r@) == step_args(self@),
    {
        let image = self.image_name.as_str();
        let container = self.container.as_str();
        let r: Vec<String> = match self.stage {
            Stage::Build => vec![
                text("build"),
                text("-f"),
                text(BUILD_FILE),
                text("-t"),
                text(image),
                text("."),
            ],
            Stage::Push => vec![text("push"), text(image)],
            Stage::SnapshotStart => vec![
                text("run"),
                text("-d"),
                text("--entrypoint"),
                text("bash"),
                text(image),
                text("-c"),
                joined(SNAPSHOT_HELPER, self.project_dir.as_str()),
            ],
            Stage::SnapshotWait => vec![text("wait"), text(container)],
            Stage::SnapshotInspect => vec![
                text("inspect"),
                text("-f"),
                text("{{.State.ExitCode}}"),
                text(container),
            ],
            Stage::SnapshotCopy => vec![
                text("cp"),
                joined(container, SNAPSHOT_SOURCE),
                text(SNAPSHOT_ARCHIVE),
            ],
            Stage::SnapshotRemove => vec![text("rm"), text(container)],
            Stage::ChartLint => vec![text("lint"), text(self.chart_name.as_str())],
            _ => vec![text("package"), text(self.chart_name.as_str())],
        };
        assert(texts_view(r@) =~= step_args(self@));
        r
    }

    /// What the driver is to do next.
    pub fn next_action(&self) -> (r: Action)
        ensures
            action_view(r) == action_of(self@),
    {
        let step = match self.stage {
            Stage::Build => Step::Build,
            Stage::Push => Step::Push,
            Stage::SnapshotStart => Step::SnapshotStart,
            Stage::SnapshotWait => Step::SnapshotWait,
            Stage::SnapshotInspect => Step::SnapshotInspect,
            Stage::SnapshotCopy => Step::SnapshotCopy,
            Stage::SnapshotRemove => Step::SnapshotRemove,
            Stage::ChartLint => Step::ChartLint,
            Stage::ChartPackage => Step::ChartPackage,
            Stage::SnapshotCheck => {
                return Action::CheckFile(text(SNAPSHOT_ARCHIVE));
            },
            Stage::ChartPrepare => {
                return Action::PrepareChart;
            },
            Stage::ChartCheck => {
                return Action::CheckFile(self.chart_file_name());
            },
            Stage::Done => {
                return Action::Finish(Ok(self.chart_file_name()));
            },
            Stage::Failed(e) => {
                return Action::Finish(Err(e));
            },
        };
        let tool = match step {
            Step::ChartLint | Step::ChartPackage => Tool::Chart,
            _ => Tool::Container,
        };
        let capture_output = match step {
            Step::SnapshotStart | Step::SnapshotInspect => true,
            _ => false,
        };
        Action::Run(Invocation { step, tool, args: self.command_args(), capture_output })
    }

    /// Takes in what came of the pending action.
    pub fn advance(&mut self, event: Event)
        ensures
            final(self)@ == transition(old(self)@, event_view(event)),
    {
        match event {
            Event::Exited { code, output } => {
                let step = match self.stage {
                    Stage::Build => Step::Build,
                    Stage::Push => Step::Push,
                    Stage::SnapshotStart => Step::SnapshotStart,
                    Stage::SnapshotWait => Step::SnapshotWait,
                    Stage::SnapshotInspect => Step::SnapshotInspect,
                    Stage::SnapshotCopy => Step::SnapshotCopy,
                    Stage::SnapshotRemove => Step::SnapshotRemove,
                    Stage::ChartLint => Step::ChartLint,
                    Stage::ChartPackage => Step::ChartPackage,
                    _ => {
                        return;
                    },
                };
                if code != 0 {
                    self.stage = Stage::Failed(PackError::StepFailed { step, code });
                    return;
                }
                self.stage = match self.stage {
                    Stage::Build => if self.push {
                        Stage::Push
                    } else if self.snapshot {
                        Stage::SnapshotStart
                    } else {
                        Stage::ChartPrepare
                    },
                    Stage::Push => if self.snapshot {
                        Stage::SnapshotStart
                    } else {
                        Stage::ChartPrepare
                    },
                    Stage::SnapshotStart => {
                        self.container = trim_text(output.as_str());
                        Stage::SnapshotWait
                    },
                    Stage::SnapshotWait => Stage::SnapshotInspect,
                    Stage::SnapshotInspect => {
                        let status = trim_text(output.as_str());
                        match parse_i32(status.as_str()) {
                            Some(c) => if c == 0 {
                                Stage::SnapshotCopy
                            } else {
                                Stage::Failed(
                                    PackError::StepFailed { step: Step::SnapshotPack, code: c },
                                )
                            },
                            None => Stage::Failed(
                                PackError::StepOutput { step: Step::SnapshotInspect },
                            ),
                        }
                    },
                    Stage::SnapshotCopy => Stage::SnapshotRemove,
                    Stage::SnapshotRemove => Stage::SnapshotCheck,
                    Stage::ChartLint => Stage::ChartPackage,
                    _ => Stage::ChartCheck,
                };
            },
            Event::Checked(present) => {
                match self.stage {
                    Stage::SnapshotCheck => {
                        self.stage = if present {
                            Stage::ChartPrepare
                        } else {
                            Stage::Failed(
                                PackError::ArtifactMissing { artifact: Artifact::SnapshotArchive },
                            )
                        };
                    },
                    Stage::ChartCheck => {
                        self.stage = if present {
                            Stage::Done
                        } else {
                            Stage::Failed(
                                PackError::ArtifactMissing { artifact: Artifact::ChartArchive },
                            )
                        };
                    },
                    _ => {},
                }
            },
            Event::ChartPrepared(outcome) => {
                if let Stage::ChartPrepare = self.stage {
                    match outcome {
                        Ok(m) => {
                            self.chart_name = m.name;
                            self.chart_version = m.version;
                            self.stage = Stage::ChartLint;
                        },
                        Err(e) => {
                            self.stage = Stage::Failed(e);
                        },
                    }
                }
            },
        }
    }
}

} // verus!
