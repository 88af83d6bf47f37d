use servicemaker::error::{Artifact, PackError, Step};
use servicemaker::manifest::ServiceMetadata;
use servicemaker::pipeline::{Action, Event, Pipeline, Stage, Tool};
use servicemaker::template::modify_dockerfile_python;

/// Runs the machine to its end, answering each action with `answer`; returns
/// the outcome and every command line run, in order.
fn drive(
    p: &mut Pipeline,
    answer: &dyn Fn(Step) -> (i32, String),
    chart: Result<ServiceMetadata, PackError>,
    present: bool,
) -> (Result<String, PackError>, Vec<(Step, String)>) {
    let mut log = Vec::new();
    for _ in 0..100 {
        match p.next_action() {
            Action::Run(inv) => {
                let program = inv.tool.program();
                log.push((inv.step, format!("{} {}", program, inv.args.join(" "))));
                let (code, output) = answer(inv.step);
                p.advance(Event::Exited { code, output });
            }
            Action::CheckFile(_) => p.advance(Event::Checked(present)),
            Action::PrepareChart => p.advance(Event::ChartPrepared(chart.clone())),
            Action::Finish(r) => return (r, log),
        }
    }
    panic!("the run did not finish");
}

fn ok(_: Step) -> (i32, String) {
    (0, String::new())
}

fn svc() -> ServiceMetadata {
    ServiceMetadata { name: "svc".to_string(), version: "2.0.0".to_string() }
}

#[test]
fn script_project_end_to_end() {
    let template = "FROM {BASE_IMAGE}\nEXPOSE {PORT}\nCMD [\"python\", \"{ENTRYPOINT}\"]\n";
    let build_file = modify_dockerfile_python(template, "arangodb/py13base:latest", "svc", "main.py", 8080, "3.13");
    assert!(build_file.contains("8080"));
    assert!(build_file.contains("main.py"));

    let mut p = Pipeline::new("arangodb/svc".to_string(), false, false, "svc".to_string());
    let (r, log) = drive(&mut p, &ok, Ok(svc()), true);
    assert_eq!(r, Ok("svc-2.0.0.tgz".to_string()));
    assert_eq!(p.chart_file_name(), "svc-2.0.0.tgz");
    assert_eq!(p.stage(), Stage::Done);
    let steps: Vec<Step> = log.iter().map(|(s, _)| *s).collect();
    assert_eq!(steps, vec![Step::Build, Step::ChartLint, Step::ChartPackage]);
    assert_eq!(log[0].1, "docker build -f ./Dockerfile -t arangodb/svc .");
    assert_eq!(log[1].1, "helm lint svc");
    assert_eq!(log[2].1, "helm package svc");
}

#[test]
fn build_failure_halts_before_push() {
    let mut p = Pipeline::new("img".to_string(), true, true, "svc".to_string());
    let fail = |s: Step| if s == Step::Build { (1, String::new()) } else { (0, String::new()) };
    let (r, log) = drive(&mut p, &fail, Ok(svc()), true);
    assert_eq!(r, Err(PackError::StepFailed { step: Step::Build, code: 1 }));
    assert_eq!(log.len(), 1);
    assert_eq!(log[0].0, Step::Build);
    assert_eq!(Step::Build.name(), "build");
    p.advance(Event::Exited { code: 0, output: String::new() });
    p.advance(Event::Checked(true));
    assert_eq!(p.stage(), Stage::Failed(PackError::StepFailed { step: Step::Build, code: 1 }));
}

#[test]
fn push_and_snapshot_run_in_order() {
    let mut p = Pipeline::new("img".to_string(), true, true, "svc".to_string());
    let answer = |s: Step| match s {
        Step::SnapshotStart => (0, "abc123\n".to_string()),
        Step::SnapshotInspect => (0, "0\n".to_string()),
        _ => (0, String::new()),
    };
    let (r, log) = drive(&mut p, &answer, Ok(svc()), true);
    assert_eq!(r, Ok("svc-2.0.0.tgz".to_string()));
    let lines: Vec<&str> = log.iter().map(|(_, l)| l.as_str()).collect();
    assert_eq!(
        lines,
        vec![
            "docker build -f ./Dockerfile -t img .",
            "docker push img",
            "docker run -d --entrypoint bash img -c /scripts/zipper.sh svc",
            "docker wait abc123",
            "docker inspect -f {{.State.ExitCode}} abc123",
            "docker cp abc123:/tmp/project.tar.gz project.tar.gz",
            "docker rm abc123",
            "helm lint svc",
            "helm package svc",
        ]
    );
}

#[test]
fn snapshot_runs_without_push() {
    let mut p = Pipeline::new("img".to_string(), false, true, "wrapper".to_string());
    let answer = |s: Step| match s {
        Step::SnapshotStart => (0, "c1".to_string()),
        Step::SnapshotInspect => (0, "0".to_string()),
        _ => (0, String::new()),
    };
    let (r, log) = drive(&mut p, &answer, Ok(svc()), true);
    assert!(r.is_ok());
    let steps: Vec<Step> = log.iter().map(|(s, _)| *s).collect();
    assert_eq!(
        steps,
        vec![
            Step::Build,
            Step::SnapshotStart,
            Step::SnapshotWait,
            Step::SnapshotInspect,
            Step::SnapshotCopy,
            Step::SnapshotRemove,
            Step::ChartLint,
            Step::ChartPackage,
        ]
    );
}

#[test]
fn container_exit_code_fails_the_snapshot() {
    let mut p = Pipeline::new("img".to_string(), false, true, "svc".to_string());
    let answer = |s: Step| match s {
        Step::SnapshotInspect => (0, " 3\n".to_string()),
        _ => (0, "c".to_string()),
    };
    let (r, log) = drive(&mut p, &answer, Ok(svc()), true);
    assert_eq!(r, Err(PackError::StepFailed { step: Step::SnapshotPack, code: 3 }));
    assert_eq!(log.last().unwrap().0, Step::SnapshotInspect);
}

#[test]
fn unreadable_exit_code_fails_the_snapshot() {
    let mut p = Pipeline::new("img".to_string(), false, true, "svc".to_string());
    let answer = |s: Step| match s {
        Step::SnapshotInspect => (0, "running".to_string()),
        _ => (0, "c".to_string()),
    };
    let (r, _) = drive(&mut p, &answer, Ok(svc()), true);
    assert_eq!(r, Err(PackError::StepOutput { step: Step::SnapshotInspect }));
}

#[test]
fn failing_step_reports_its_name_and_code() {
    let mut p = Pipeline::new("img".to_string(), true, false, "svc".to_string());
    let answer = |s: Step| if s == Step::Push { (125, String::new()) } else { (0, String::new()) };
    let (r, _) = drive(&mut p, &answer, Ok(svc()), true);
    assert_eq!(r, Err(PackError::StepFailed { step: Step::Push, code: 125 }));

    let mut p = Pipeline::new("img".to_string(), false, false, "svc".to_string());
    let answer = |s: Step| if s == Step::ChartLint { (1, String::new()) } else { (0, String::new()) };
    let (r, log) = drive(&mut p, &answer, Ok(svc()), true);
    assert_eq!(r, Err(PackError::StepFailed { step: Step::ChartLint, code: 1 }));
    assert_eq!(log.len(), 2);
}

#[test]
fn missing_archives_are_integrity_failures() {
    let mut p = Pipeline::new("img".to_string(), false, false, "svc".to_string());
    let (r, _) = drive(&mut p, &ok, Ok(svc()), false);
    assert_eq!(r, Err(PackError::ArtifactMissing { artifact: Artifact::ChartArchive }));

    let mut p = Pipeline::new("img".to_string(), false, true, "svc".to_string());
    let answer = |s: Step| match s {
        Step::SnapshotInspect => (0, "0".to_string()),
        _ => (0, "c".to_string()),
    };
    let (r, _) = drive(&mut p, &answer, Ok(svc()), false);
    assert_eq!(r, Err(PackError::ArtifactMissing { artifact: Artifact::SnapshotArchive }));
}

#[test]
fn manifest_error_stops_before_chart_steps() {
    let mut p = Pipeline::new("img".to_string(), false, false, "svc".to_string());
    let err = PackError::Manifest(servicemaker::error::ManifestProblem::MissingVersion);
    let (r, log) = drive(&mut p, &ok, Err(err), true);
    assert_eq!(r, Err(err));
    assert_eq!(log.len(), 1);
}

#[test]
fn only_snapshot_start_and_inspect_capture_output() {
    let mut p = Pipeline::new("img".to_string(), false, true, "svc".to_string());
    let mut captured = Vec::new();
    for (code, output) in [(0, ""), (0, "c\n"), (0, ""), (0, "0")] {
        if let Action::Run(inv) = p.next_action() {
            if inv.capture_output {
                captured.push(inv.step);
            }
        }
        p.advance(Event::Exited { code, output: output.to_string() });
    }
    assert_eq!(captured, vec![Step::SnapshotStart, Step::SnapshotInspect]);
}

#[test]
fn unrelated_event_changes_nothing() {
    let mut p = Pipeline::new("img".to_string(), false, false, "svc".to_string());
    p.advance(Event::Checked(true));
    p.advance(Event::ChartPrepared(Ok(svc())));
    assert_eq!(p.stage(), Stage::Build);
    assert_eq!(Tool::Chart.program(), "helm");
}
