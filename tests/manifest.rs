use servicemaker::error::{ManifestProblem, PackError};
use servicemaker::kinds::ManifestFormat;
use servicemaker::manifest::{metadata_from_fields, read_name, read_service_info, ServiceMetadata};

fn meta(name: &str, version: &str) -> ServiceMetadata {
    ServiceMetadata { name: name.to_string(), version: version.to_string() }
}

#[test]
fn flat_manifest_without_version_defaults() {
    let r = read_service_info(ManifestFormat::Flat, r#"{"name": "svc"}"#);
    assert_eq!(r, Ok(meta("svc", "1.0.0")));
}

#[test]
fn flat_manifest_with_version() {
    let r = read_service_info(ManifestFormat::Flat, r#"{"name": "svc", "version": "2.0.0", "main": "index.js"}"#);
    assert_eq!(r, Ok(meta("svc", "2.0.0")));
}

#[test]
fn structured_manifest_without_version_fails() {
    let r = read_service_info(ManifestFormat::Structured, "[project]\nname = \"svc\"\n");
    assert_eq!(r, Err(PackError::Manifest(ManifestProblem::MissingVersion)));
}

#[test]
fn structured_manifest_with_version() {
    let r = read_service_info(ManifestFormat::Structured, "[project]\nname = \"svc\"\nversion = \"2.0.0\"\n");
    assert_eq!(r, Ok(meta("svc", "2.0.0")));
}

#[test]
fn missing_name_fails_in_both_formats() {
    assert_eq!(
        read_service_info(ManifestFormat::Flat, r#"{"version": "1.2.3"}"#),
        Err(PackError::Manifest(ManifestProblem::MissingName))
    );
    assert_eq!(
        read_service_info(ManifestFormat::Structured, "[tool]\nname = \"svc\"\n"),
        Err(PackError::Manifest(ManifestProblem::MissingName))
    );
    assert_eq!(
        read_service_info(ManifestFormat::Flat, r#"{"name": 7}"#),
        Err(PackError::Manifest(ManifestProblem::MissingName))
    );
}

#[test]
fn unparsable_manifest_fails() {
    assert_eq!(
        read_service_info(ManifestFormat::Flat, "{ not json"),
        Err(PackError::Manifest(ManifestProblem::Unparsable))
    );
    assert_eq!(
        read_service_info(ManifestFormat::Structured, "[project\nname ="),
        Err(PackError::Manifest(ManifestProblem::Unparsable))
    );
}

#[test]
fn name_alone_needs_no_version() {
    assert_eq!(read_name(ManifestFormat::Structured, "[project]\nname = \"tool\"\n"), Ok("tool".to_string()));
    assert_eq!(read_name(ManifestFormat::Flat, r#"{"name": "web"}"#), Ok("web".to_string()));
    assert_eq!(
        read_name(ManifestFormat::Flat, "[]"),
        Err(PackError::Manifest(ManifestProblem::MissingName))
    );
}

#[test]
fn fields_give_metadata() {
    assert_eq!(
        metadata_from_fields(ManifestFormat::Flat, Some("a".to_string()), None),
        Ok(meta("a", "1.0.0"))
    );
    assert_eq!(
        metadata_from_fields(ManifestFormat::Structured, Some("a".to_string()), None),
        Err(PackError::Manifest(ManifestProblem::MissingVersion))
    );
    assert_eq!(
        metadata_from_fields(ManifestFormat::Structured, Some("a".to_string()), Some("0.1".to_string())),
        Ok(meta("a", "0.1"))
    );
    assert_eq!(
        metadata_from_fields(ManifestFormat::Flat, None, Some("0.1".to_string())),
        Err(PackError::Manifest(ManifestProblem::MissingName))
    );
}
