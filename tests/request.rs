use servicemaker::kinds::ProjectKind;
use servicemaker::request::{
    choose_mount_path, default_mount_path, find_single_py_file, mount_path_for, resolve_name,
};

fn names(v: &[&str]) -> Vec<String> {
    v.iter().map(|s| s.to_string()).collect()
}

#[test]
fn single_script_is_the_entrypoint() {
    assert_eq!(find_single_py_file(&names(&["main.py", "README.md"])), Some("main.py".to_string()));
    assert_eq!(find_single_py_file(&names(&["a.b.py"])), Some("a.b.py".to_string()));
}

#[test]
fn no_or_several_scripts_give_no_entrypoint() {
    assert_eq!(find_single_py_file(&names(&[])), None);
    assert_eq!(find_single_py_file(&names(&["a.py", "b.py"])), None);
    assert_eq!(find_single_py_file(&names(&[".py", "py", "a.pyc", "x.txt"])), None);
}

#[test]
fn name_comes_from_operator_then_manifest_then_directory() {
    let given = Some("op".to_string());
    let manifest = Some("man".to_string());
    assert_eq!(resolve_name(ProjectKind::Script, given.clone(), manifest.clone(), "dir"), given);
    assert_eq!(resolve_name(ProjectKind::Script, None, manifest.clone(), "dir"), manifest);
    assert_eq!(resolve_name(ProjectKind::Script, None, None, "dir"), None);
    assert_eq!(resolve_name(ProjectKind::MultiService, None, None, "dir"), None);
    assert_eq!(resolve_name(ProjectKind::SingleService, None, None, "dir"), Some("dir".to_string()));
}

#[test]
fn mount_path_is_lower_case_directory_name() {
    assert_eq!(default_mount_path("MyService"), "/myservice");
    assert_eq!(default_mount_path("itz"), "/itz");
    assert_eq!(mount_path_for("abc"), "/abc");
}

#[test]
fn empty_answer_takes_offered_mount_path() {
    assert_eq!(choose_mount_path("", "/itz".to_string()), "/itz");
    assert_eq!(choose_mount_path("/other", "/itz".to_string()), "/other");
}
