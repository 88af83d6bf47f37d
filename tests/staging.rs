use servicemaker::kinds::ProjectKind;
use servicemaker::staging::{
    generate_services_json, is_excluded_name, plan_tree_copy, stage_root_dirs, staged_project_dir,
    workspace_dir_name, TreeEntry, SCRIPT_MODE,
};

fn entry(path: &[&str], is_dir: bool) -> TreeEntry {
    TreeEntry { path: path.iter().map(|s| s.to_string()).collect(), is_dir }
}

fn strs(v: &[String]) -> Vec<&str> {
    v.iter().map(|s| s.as_str()).collect()
}

fn tree() -> Vec<TreeEntry> {
    vec![
        entry(&["main.py"], false),
        entry(&[".venv"], true),
        entry(&[".venv", "bin"], true),
        entry(&[".venv", "bin", "python"], false),
        entry(&["src"], true),
        entry(&["src", "app.py"], false),
        entry(&["src", "node_modules"], true),
        entry(&["src", "node_modules", "x", "index.js"], false),
        entry(&["pyproject.toml"], false),
    ]
}

#[test]
fn excluded_subdirectories_are_not_staged() {
    let plan = plan_tree_copy(ProjectKind::Script, "svc", &tree());
    let sources: Vec<Vec<&str>> = plan.iter().map(|e| strs(&e.source)).collect();
    assert_eq!(
        sources,
        vec![vec!["main.py"], vec!["src"], vec!["src", "app.py"], vec!["pyproject.toml"]]
    );
    for e in &plan {
        assert!(!e.source.iter().any(|c| c == ".venv" || c == "node_modules"));
        assert!(!e.target.iter().any(|c| c == ".venv" || c == "node_modules"));
    }
}

#[test]
fn staged_entries_go_below_project_directory() {
    let plan = plan_tree_copy(ProjectKind::Script, "svc", &tree());
    assert_eq!(strs(&plan[0].target), vec!["svc", "main.py"]);
    assert!(!plan[0].is_dir);
    assert_eq!(strs(&plan[1].target), vec!["svc", "src"]);
    assert!(plan[1].is_dir);
    assert_eq!(strs(&plan[2].target), vec!["svc", "src", "app.py"]);
}

#[test]
fn single_service_is_staged_under_wrapper() {
    let entries = vec![entry(&["package.json"], false), entry(&["node_modules", "a.js"], false)];
    let plan = plan_tree_copy(ProjectKind::SingleService, "itz", &entries);
    assert_eq!(plan.len(), 1);
    assert_eq!(strs(&plan[0].target), vec!["wrapper", "itz", "package.json"]);
    assert_eq!(staged_project_dir(ProjectKind::SingleService, "itz"), "wrapper");
    assert_eq!(staged_project_dir(ProjectKind::MultiService, "itz"), "itz");
    assert_eq!(stage_root_dirs(ProjectKind::SingleService, "itz"), vec!["wrapper", "itz"]);
    assert_eq!(stage_root_dirs(ProjectKind::Script, "svc"), vec!["svc"]);
}

#[test]
fn empty_tree_stages_nothing() {
    assert!(plan_tree_copy(ProjectKind::Script, "svc", &Vec::new()).is_empty());
}

#[test]
fn exclusion_names() {
    assert!(is_excluded_name(".venv"));
    assert!(is_excluded_name("node_modules"));
    assert!(!is_excluded_name("venv"));
    assert!(!is_excluded_name("node_modules2"));
    assert!(!is_excluded_name(""));
}

#[test]
fn service_descriptor_lists_mount_and_base_path() {
    let d = generate_services_json("itz", "/itz");
    assert_eq!(
        d,
        "[\n    {\n        \"mount\": \"/itz\",\n        \"basePath\": \"itz\"\n    }\n]"
    );
}

#[test]
fn workspace_name_joins_project_and_process() {
    assert_eq!(workspace_dir_name("svc", 4242), "servicemaker-svc-4242");
    assert_eq!(workspace_dir_name("a", 0), "servicemaker-a-0");
    assert_eq!(workspace_dir_name("b", u32::MAX), "servicemaker-b-4294967295");
}

#[test]
fn scripts_are_executable_by_everyone() {
    assert_eq!(SCRIPT_MODE, 0o755);
}
