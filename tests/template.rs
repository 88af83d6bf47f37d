use servicemaker::kinds::ProjectKind;
use servicemaker::template::{
    bind, extract_python_version, modify_dockerfile_nodejs, modify_dockerfile_python, render,
    render_build_file, render_chart_file, replace_all,
};

fn chars(s: &str) -> Vec<char> {
    s.chars().collect()
}

#[test]
fn runtime_version_from_marker_digits() {
    assert_eq!(extract_python_version("arangodb/py13base:latest"), "3.13");
    assert_eq!(extract_python_version("arangodb/py12base:latest"), "3.12");
    assert_eq!(extract_python_version("py13"), "3.13");
    assert_eq!(extract_python_version("img-py9"), "3.9");
}

#[test]
fn runtime_version_marker_without_digits_is_default() {
    assert_eq!(extract_python_version("arangodb/pybase:latest"), "3.13");
    assert_eq!(extract_python_version("py"), "3.13");
    assert_eq!(extract_python_version("pypy39"), "3.13");
}

#[test]
fn runtime_version_without_marker_is_default() {
    assert_eq!(extract_python_version("arangodb/node22base:latest"), "3.13");
    assert_eq!(extract_python_version(""), "3.13");
}

#[test]
fn replace_reads_left_to_right_without_overlap() {
    let r = replace_all(&chars("aaa"), &chars("aa"), &chars("b"));
    assert_eq!(r, chars("ba"));
    let r = replace_all(&chars("x{A}y{A}"), &chars("{A}"), &chars("1"));
    assert_eq!(r, chars("x1y1"));
    let r = replace_all(&chars("abc"), &chars(""), &chars("z"));
    assert_eq!(r, chars("abc"));
}

#[test]
fn unknown_tokens_stay_in_output() {
    let bs = vec![bind("{PORT}", "80".to_string())];
    assert_eq!(render("{PORT} {OTHER}", &bs), "80 {OTHER}");
}

#[test]
fn rendering_resolved_text_twice_is_stable() {
    let bs = vec![
        bind("{SERVICE_NAME}", "svc".to_string()),
        bind("{PORT}", "8080".to_string()),
    ];
    let resolved = "name: svc\nport: 8080\n";
    let once = render(resolved, &bs);
    let twice = render(&once, &bs);
    assert_eq!(once, resolved);
    assert_eq!(twice, once);
    let first = render("name: {SERVICE_NAME}\nport: {PORT}\n", &bs);
    assert_eq!(first, resolved);
    assert_eq!(render(&first, &bs), first);
}

#[test]
fn script_build_file_carries_port_and_entrypoint() {
    let t = "FROM {BASE_IMAGE}\nCOPY {PROJECT_DIR} /project\nEXPOSE {PORT}\nCMD python{PYTHON_VERSION} {ENTRYPOINT}\n";
    let r = modify_dockerfile_python(t, "arangodb/py13base:latest", "svc", "main.py", 8080, "3.13");
    assert_eq!(r, "FROM arangodb/py13base:latest\nCOPY svc /project\nEXPOSE 8080\nCMD python3.13 main.py\n");
}

#[test]
fn web_build_file_leaves_entrypoint_token() {
    let t = "FROM {BASE_IMAGE}\nCOPY {PROJECT_DIR}\nEXPOSE {PORT} {ENTRYPOINT}\n";
    let r = modify_dockerfile_nodejs(t, "arangodb/node22base:latest", "wrapper", 0);
    assert_eq!(r, "FROM arangodb/node22base:latest\nCOPY wrapper\nEXPOSE 0 {ENTRYPOINT}\n");
}

#[test]
fn build_file_by_kind_derives_runtime_version() {
    let t = "{BASE_IMAGE}|{PYTHON_VERSION}|{ENTRYPOINT}|{PORT}";
    assert_eq!(
        render_build_file(ProjectKind::Script, t, "arangodb/py12base:latest", "p", 65535, "app.py"),
        "arangodb/py12base:latest|3.12|app.py|65535"
    );
    assert_eq!(
        render_build_file(ProjectKind::SingleService, t, "node", "wrapper", 3000, "app.py"),
        "node|{PYTHON_VERSION}|{ENTRYPOINT}|3000"
    );
}

#[test]
fn chart_file_gets_its_four_tokens() {
    let t = "name: {SERVICE_NAME}\nversion: {VERSION}\nport: {PORT}\nimage: {IMAGE_NAME}\n{PORT}";
    let r = render_chart_file(t, "svc", "2.0.0", 8080, "arangodb/svc");
    assert_eq!(r, "name: svc\nversion: 2.0.0\nport: 8080\nimage: arangodb/svc\n8080");
}
