//! Project kinds: classification from marker files and what each kind implies.
use vstd::prelude::*;
use crate::error::PackError;
use crate::text::same_text;

verus! {

/// The manifest of a script project.
pub const SCRIPT_MANIFEST: &'static str = "pyproject.toml";

/// The manifest of a web project.
pub const WEB_MANIFEST: &'static str = "package.json";

/// The descriptor that lists the services of a multi-service project.
pub const SERVICE_DESCRIPTOR: &'static str = "services.json";

/// The base image used when the operator names none.
pub const DEFAULT_BASE_IMAGE: &'static str = "arangodb/py13base:latest";

/// The base image that replaces the default one for web projects.
pub const WEB_BASE_IMAGE: &'static str = "arangodb/node22base:latest";

/// The kind of a project, fixed once per run.
#[derive(Clone, Copy, PartialEq, Eq, Structural, Debug)]
pub enum ProjectKind {
    /// A script project with a structured manifest.
    Script,
    /// A web project whose directory holds several services and their descriptor.
    MultiService,
    /// A directory that holds exactly one web service; it is wrapped before packaging.
    SingleService,
    /// A plain web project.
    Web,
}

/// The format of a manifest.
#[derive(Clone, Copy, PartialEq, Eq, Structural, Debug)]
pub enum ManifestFormat {
    /// A structured document with a `project` table holding `name` and `version`;
    /// the version is mandatory.
    Structured,
    /// A flat document with top-level `name` and optional `version`.
    Flat,
}

/// Classifies a project from which of its three marker files are present,
/// checked in order: a script manifest first, then a web manifest with a
/// service descriptor, then a web manifest alone; none of them is an error.
pub fn detect_project_type(
    has_script_manifest: bool,
    has_web_manifest: bool,
    has_service_descriptor: bool,
) -> (r: Result<ProjectKind, PackError>)
    ensures
        has_script_manifest ==> r == Ok::<ProjectKind, PackError>(ProjectKind::Script),
        !has_script_manifest && has_web_manifest && has_service_descriptor ==> r == Ok::<
            ProjectKind,
            PackError,
        >(ProjectKind::MultiService),
        !has_script_manifest && has_web_manifest && !has_service_descriptor ==> r == Ok::<
            ProjectKind,
            PackError,
        >(ProjectKind::SingleService),
        !has_script_manifest && !has_web_manifest ==> r == Err::<ProjectKind, PackError>(
            PackError::Classification,
        ),
{
    if has_script_manifest {
        Ok(ProjectKind::Script)
    } else if has_web_manifest && has_service_descriptor {
        Ok(ProjectKind::MultiService)
    } else if has_web_manifest {
        Ok(ProjectKind::SingleService)
    } else {
        Err(PackError::Classification)
    }
}

/// The name of a kind, as reported to the operator.
pub open spec fn kind_tag(k: ProjectKind) -> Seq<char> {
    match k {
        ProjectKind::Script => "script-project"@,
        ProjectKind::MultiService => "multi-service-project"@,
        ProjectKind::SingleService => "single-service-project"@,
        ProjectKind::Web => "web-project"@,
    }
}

/// The manifest file that a kind reads.
pub open spec fn manifest_file_of(k: ProjectKind) -> Seq<char> {
    if k is Script {
        SCRIPT_MANIFEST@
    } else {
        WEB_MANIFEST@
    }
}

impl ProjectKind {
    /// The name of this kind, as reported to the operator.
    pub fn tag(&self) -> (r: &'static str)
        ensures
            r@ == kind_tag(*self),
    {
        match self {
            ProjectKind::Script => "script-project",
            ProjectKind::MultiService => "multi-service-project",
            ProjectKind::SingleService => "single-service-project",
            ProjectKind::Web => "web-project",
        }
    }

    /// The manifest file of this kind.
    pub fn manifest_file(&self) -> (r: &'static str)
        ensures
            r@ == manifest_file_of(*self),
    {
        match self {
            ProjectKind::Script => SCRIPT_MANIFEST,
            _ => WEB_MANIFEST,
        }
    }

    /// The format of this kind's manifest.
    pub fn manifest_format(&self) -> (r: ManifestFormat)
        ensures
            r == (if *self is Script {
                ManifestFormat::Structured
            } else {
                ManifestFormat::Flat
            }),
    {
        match self {
            ProjectKind::Script => ManifestFormat::Structured,
            _ => ManifestFormat::Flat,
        }
    }

    /// Whether this kind is staged inside a wrapper directory.
    pub fn is_wrapped(&self) -> (r: bool)
        ensures
            r == (*self is SingleService),
    {
        matches!(self, ProjectKind::SingleService)
    }

    /// Whether this kind builds from the script build-file template (the
    /// others build from the web template).
    pub fn uses_script_template(&self) -> (r: bool)
        ensures
            r == (*self is Script),
    {
        matches!(self, ProjectKind::Script)
    }

    /// The base image to build from, given the one the operator asked for:
    /// web kinds replace the default script image by the web image.
    pub fn base_image(&self, requested: &str) -> (r: String)
        ensures
            r@ == (if !(*self is Script) && requested@ == DEFAULT_BASE_IMAGE@ {
                WEB_BASE_IMAGE@
            } else {
                requested@
            }),
    {
        if !matches!(self, ProjectKind::Script) && same_text(requested, DEFAULT_BASE_IMAGE) {
            WEB_BASE_IMAGE.to_owned()
        } else {
            requested.to_owned()
        }
    }
}

} // verus!
