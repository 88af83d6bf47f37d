//! The errors that end a packaging run.
use vstd::prelude::*;

verus! {

/// An external step of the build orchestrator or the chart packager.
#[derive(Clone, Copy, PartialEq, Eq, Structural, Debug)]
pub enum Step {
    /// Building the container image from the rendered build file.
    Build,
    /// Pushing the built image.
    Push,
    /// Starting the detached container that packs the snapshot.
    SnapshotStart,
    /// Waiting for that container to terminate.
    SnapshotWait,
    /// Reading the exit code of that container.
    SnapshotInspect,
    /// The packing helper that ran inside the container.
    SnapshotPack,
    /// Copying the snapshot archive out of the container.
    SnapshotCopy,
    /// Removing the container.
    SnapshotRemove,
    /// Linting the rendered chart.
    ChartLint,
    /// Packaging the chart.
    ChartPackage,
}

/// The name of a step, as reported to the operator.
pub open spec fn step_name(s: Step) -> Seq<char> {
    match s {
        Step::Build => "build"@,
        Step::Push => "push"@,
        Step::SnapshotStart => "snapshot start"@,
        Step::SnapshotWait => "snapshot wait"@,
        Step::SnapshotInspect => "snapshot inspect"@,
        Step::SnapshotPack => "snapshot pack"@,
        Step::SnapshotCopy => "snapshot copy"@,
        Step::SnapshotRemove => "snapshot remove"@,
        Step::ChartLint => "chart lint"@,
        Step::ChartPackage => "chart package"@,
    }
}

impl Step {
    /// The name of this step, as reported to the operator.
    pub fn name(&self) -> (r: &'static str)
        ensures
            r@ == step_name(*self),
    {
        match self {
            Step::Build => "build",
            Step::Push => "push",
            Step::SnapshotStart => "snapshot start",
            Step::SnapshotWait => "snapshot wait",
            Step::SnapshotInspect => "snapshot inspect",
            Step::SnapshotPack => "snapshot pack",
            Step::SnapshotCopy => "snapshot copy",
            Step::SnapshotRemove => "snapshot remove",
            Step::ChartLint => "chart lint",
            Step::ChartPackage => "chart package",
        }
    }
}

/// What is wrong with a project's manifest.
#[derive(Clone, Copy, PartialEq, Eq, Structural, Debug)]
pub enum ManifestProblem {
    /// The manifest file is not there.
    Missing,
    /// The manifest is not a document of its format.
    Unparsable,
    /// The manifest names no service.
    MissingName,
    /// The manifest's format asks for a version and it gives none.
    MissingVersion,
}

/// A file that a step is expected to leave in the workspace.
#[derive(Clone, Copy, PartialEq, Eq, Structural, Debug)]
pub enum Artifact {
    /// The snapshot archive copied out of the container.
    SnapshotArchive,
    /// The packaged chart.
    ChartArchive,
}

/// Why a packaging run stopped.
#[derive(Clone, Copy, PartialEq, Eq, Structural, Debug)]
pub enum PackError {
    /// No marker file of a known project type is in the project home.
    Classification,
    /// The manifest is missing, unparsable or incomplete.
    Manifest(ManifestProblem),
    /// Staging the workspace failed on the file system.
    Workspace,
    /// An external step exited with a non-zero status.
    StepFailed { step: Step, code: i32 },
    /// An external step succeeded but its output could not be read.
    StepOutput { step: Step },
    /// A step reported success but the file it should have made is not there.
    ArtifactMissing { artifact: Artifact },
}

} // verus!
