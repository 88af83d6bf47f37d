//! Reading a service's name and version from its manifest.
//!
//! A structured manifest (TOML) holds them as `project.name` and
//! `project.version`, both mandatory; a flat manifest (JSON) holds them as
//! top-level `name` and `version`, where a missing version reads as `1.0.0`.
use vstd::prelude::*;
use crate::error::{ManifestProblem, PackError};
use crate::kinds::ManifestFormat;

verus! {

#[verifier::external_type_specification]
#[verifier::external_body]
pub struct ExJsonError(serde_json::Error);

#[verifier::external_type_specification]
#[verifier::external_body]
pub struct ExTomlError(toml::de::Error);

/// Whether serde_json reads `text` as a JSON document.
pub uninterp spec fn json_accepts(text: Seq<char>) -> bool;

/// The string that the top-level member `key` of the JSON document `text`
/// holds; none where the member is absent or holds no string.
pub uninterp spec fn json_member(text: Seq<char>, key: Seq<char>) -> Option<Seq<char>>;

/// Whether the toml crate reads `text` as a TOML document.
pub uninterp spec fn toml_accepts(text: Seq<char>) -> bool;

/// The string that `key` of the table `table` of the TOML document `text`
/// holds; none where either is absent or the value is no string.
pub uninterp spec fn toml_member(text: Seq<char>, table: Seq<char>, key: Seq<char>) -> Option<
    Seq<char>,
>;

/// The characters of an optional string.
pub open spec fn opt_chars(s: Option<String>) -> Option<Seq<char>> {
    match s {
        Some(x) => Some(x@),
        None => None,
    }
}

/// Relies on `serde_json::from_str` into a `serde_json::Value`, then on
/// `Value::get` and `Value::as_str`: whether the text parses, and the string
/// held by its top-level member `key`.
#[verifier::external_body]
pub(crate) fn json_string_member(text: &str, key: &str) -> (r: Result<Option<String>, serde_json::Error>)
    ensures
        r is Ok <==> json_accepts(text@),
        r matches Ok(m) ==> opt_chars(m) == json_member(text@, key@),
{
    let doc: serde_json::Value = serde_json::from_str(text)?;
    match doc.get(key) {
        Some(v) => Ok(v.as_str().map(String::from)),
        None => Ok(None),
    }
}

/// Relies on `toml::from_str` into a `toml::Value`, then on `Value::get`
/// (twice) and `Value::as_str`: whether the text parses, and the string held
/// by `key` of its table `table`.
#[verifier::external_body]
fn toml_string_member(text: &str, table: &str, key: &str) -> (r: Result<
    Option<String>,
    toml::de::Error,
>)
    ensures
        r is Ok <==> toml_accepts(text@),
        r matches Ok(m) ==> opt_chars(m) == toml_member(text@, table@, key@),
{
    let doc: toml::Value = toml::from_str(text)?;
    let found = match doc.get(table) {
        Some(t) => t.get(key),
        None => None,
    };
    match found {
        Some(v) => Ok(v.as_str().map(String::from)),
        None => Ok(None),
    }
}

/// A service's name and version.
#[derive(Clone, Debug, PartialEq, Eq)]
pub struct ServiceMetadata {
    pub name: String,
    pub version: String,
}

impl View for ServiceMetadata {
    type V = (Seq<char>, Seq<char>);

    open spec fn view(&self) -> (Seq<char>, Seq<char>) {
        (self.name@, self.version@)
    }
}

/// The version of a flat manifest that gives none.
pub open spec fn default_version() -> Seq<char> {
    seq!['1', '.', '0', '.', '0']
}

pub open spec fn name_key() -> Seq<char> {
    seq!['n', 'a', 'm', 'e']
}

pub open spec fn version_key() -> Seq<char> {
    seq!['v', 'e', 'r', 's', 'i', 'o', 'n']
}

/// The table of a structured manifest that holds name and version.
pub open spec fn project_table() -> Seq<char> {
    seq!['p', 'r', 'o', 'j', 'e', 'c', 't']
}

/// Whether a manifest of `format` parses.
pub open spec fn manifest_accepts(format: ManifestFormat, text: Seq<char>) -> bool {
    match format {
        ManifestFormat::Structured => toml_accepts(text),
        ManifestFormat::Flat => json_accepts(text),
    }
}

/// The string field `key` of a manifest of `format`.
pub open spec fn manifest_field(format: ManifestFormat, text: Seq<char>, key: Seq<char>) -> Option<
    Seq<char>,
> {
    match format {
        ManifestFormat::Structured => toml_member(text, project_table(), key),
        ManifestFormat::Flat => json_member(text, key),
    }
}

/// The metadata that the name and version fields of a manifest give.
pub open spec fn metadata_outcome(
    format: ManifestFormat,
    name: Option<Seq<char>>,
    version: Option<Seq<char>>,
) -> Result<(Seq<char>, Seq<char>), PackError> {
    match name {
        None => Err(PackError::Manifest(ManifestProblem::MissingName)),
        Some(n) => match version {
            Some(v) => Ok((n, v)),
            None => if format is Flat {
                Ok((n, default_version()))
            } else {
                Err(PackError::Manifest(ManifestProblem::MissingVersion))
            },
        },
    }
}

/// A result with its metadata seen as characters.
pub open spec fn outcome_view(r: Result<ServiceMetadata, PackError>) -> Result<
    (Seq<char>, Seq<char>),
    PackError,
> {
    match r {
        Ok(m) => Ok(m@),
        Err(e) => Err(e),
    }
}

/// The metadata of a manifest of `format` whose text is `text`.
pub open spec fn manifest_metadata(format: ManifestFormat, text: Seq<char>) -> Result<
    (Seq<char>, Seq<char>),
    PackError,
> {
    if manifest_accepts(format, text) {
        metadata_outcome(
            format,
            manifest_field(format, text, name_key()),
            manifest_field(format, text, version_key()),
        )
    } else {
        Err(PackError::Manifest(ManifestProblem::Unparsable))
    }
}

/// A manifest without a version field: a flat one reads as version `1.0.0`,
/// a structured one fails with a manifest error.
pub proof fn lemma_missing_version(text: Seq<char>, format: ManifestFormat)
    requires
        manifest_accepts(format, text),
        manifest_field(format, text, name_key()) is Some,
        manifest_field(format, text, version_key()) is None,
    ensures
        format is Flat ==> manifest_metadata(format, text) == Ok::<
            (Seq<char>, Seq<char>),
            PackError,
        >((manifest_field(format, text, name_key())->0, default_version())),
        format is Structured ==> manifest_metadata(format, text) == Err::<
            (Seq<char>, Seq<char>),
            PackError,
        >(PackError::Manifest(ManifestProblem::MissingVersion)),
{
}

/// Reads the string field `key` of a manifest of `format`.
fn read_field(format: ManifestFormat, text: &str, key: &str) -> (r: Result<Option<String>, PackError>)
    ensures
        r is Ok <==> manifest_accepts(format, text@),
        r matches Ok(m) ==> opt_chars(m) == manifest_field(format, text@, key@),
        r is Err ==> r == Err::<Option<String>, PackError>(
            PackError::Manifest(ManifestProblem::Unparsable),
        ),
{
    proof {
        reveal_strlit("project");
        assert("project"@ =~= project_table());
    }
    match format {
        ManifestFormat::Structured => match toml_string_member(text, "project", key) {
            Ok(m) => Ok(m),
            Err(_) => Err(PackError::Manifest(ManifestProblem::Unparsable)),
        },
        ManifestFormat::Flat => match json_string_member(text, key) {
            Ok(m) => Ok(m),
            Err(_) => Err(PackError::Manifest(ManifestProblem::Unparsable)),
        },
    }
}

/// The metadata that a manifest's name and version fields give: the name is
/// mandatory; a missing version is an error in a structured manifest and
/// reads as `1.0.0` in a flat one.
pub fn metadata_from_fields(
    format: ManifestFormat,
    name: Option<String>,
    version: Option<String>,
) -> (r: Result<ServiceMetadata, PackError>)
    ensures
        outcome_view(r) == metadata_outcome(format, opt_chars(name), opt_chars(version)),
{
    match name {
        None => Err(PackError::Manifest(ManifestProblem::MissingName)),
        Some(n) => match version {
            Some(v) => Ok(ServiceMetadata { name: n, version: v }),
            None => match format {
                ManifestFormat::Flat => {
                    let v: Vec<char> = vec!['1', '.', '0', '.', '0'];
                    assert(v@ =~= default_version());
                    Ok(ServiceMetadata { name: n, version: crate::text::string_of(&v) })
                },
                ManifestFormat::Structured => Err(
                    PackError::Manifest(ManifestProblem::MissingVersion),
                ),
            },
        },
    }
}

/// Reads the service's name and version from the text of its manifest.
pub fn read_service_info(format: ManifestFormat, text: &str) -> (r: Result<
    ServiceMetadata,
    PackError,
>)
    ensures
        outcome_view(r) == manifest_metadata(format, text@),
{
    proof {
        reveal_strlit("name");
        reveal_strlit("version");
        assert("name"@ =~= name_key());
        assert("version"@ =~= version_key());
    }
    let name = match read_field(format, text, "name") {
        Ok(m) => m,
        Err(e) => return Err(e),
    };
    let version = match read_field(format, text, "version") {
        Ok(m) => m,
        Err(e) => return Err(e),
    };
    metadata_from_fields(format, name, version)
}

/// Reads the service's name alone from the text of its manifest.
pub fn read_name(format: ManifestFormat, text: &str) -> (r: Result<String, PackError>)
    ensures
        !manifest_accepts(format, text@) ==> r == Err::<String, PackError>(
            PackError::Manifest(ManifestProblem::Unparsable),
        ),
        manifest_accepts(format, text@) ==> match manifest_field(format, text@, name_key()) {
            Some(n) => r is Ok && r->Ok_0@ == n,
            None => r == Err::<String, PackError>(
                PackError::Manifest(ManifestProblem::MissingName),
            ),
        },
{
    proof {
        reveal_strlit("name");
        assert("name"@ =~= name_key());
    }
    match read_field(format, text, "name") {
        Ok(Some(n)) => Ok(n),
        Ok(None) => Err(PackError::Manifest(ManifestProblem::MissingName)),
        Err(e) => Err(e),
    }
}

} // verus!
