//! The pip-list analyzer's decision logic, and the paths and errors around
//! it.
use sbom_rs::analyze::{AnalyzerError, DependencyKind};
use sbom_rs::analyze::AnalyzeKind;
use sbom_rs::cmd::{gate_output, CmdOuput};
use sbom_rs::opts::{absolute_path, classify_target, Target};
use sbom_rs::pip_list::{PipListAnalyzer, PipListOutcome, PipListShowItem};
use sbom_rs::setuptools::{discovery_pattern, projects_from_paths, SetupToolProject};

fn project() -> SetupToolProject {
    SetupToolProject { manifest: "/srv/app/requirements.txt".to_string() }
}

#[test]
fn piplist_reports_its_name() {
    assert_eq!(PipListAnalyzer.name(), "piplist");
}

#[test]
fn piplist_is_a_dynamic_analyzer() {
    assert!(matches!(PipListAnalyzer.kind(), AnalyzeKind::Dynamic));
}

#[test]
fn equal_rows_become_one_graph_node() {
    let row = || PipListShowItem { name: "flask".to_string(), version: "2.0.1".to_string() };
    let other = PipListShowItem { name: "requests".to_string(), version: "2.28.0".to_string() };
    let outcome = PipListOutcome::Items(vec![row(), other, row()]);
    let unit = PipListAnalyzer.analyze_output(&project(), outcome).expect("rows decode");
    let deps = unit.dependencies();
    assert_eq!(deps.len(), 2);
    assert_eq!(deps[0].name, "flask");
    assert_eq!(deps[1].name, "requests");
}

#[test]
fn listed_rows_become_graph_nodes_in_order() {
    let outcome = PipListOutcome::Items(vec![
        PipListShowItem { name: "flask".to_string(), version: "2.0.1".to_string() },
        PipListShowItem { name: "requests".to_string(), version: "2.28.0".to_string() },
    ]);
    let unit = PipListAnalyzer.analyze_output(&project(), outcome).expect("rows decode");
    assert_eq!(unit.analyzer, "piplist");
    assert_eq!(unit.project.dir, "/srv/app");
    assert_eq!(unit.project.manifest, "/srv/app/requirements.txt");
    let deps = unit.dependencies();
    assert_eq!(deps.len(), 2);
    assert_eq!(deps[0].name, "flask");
    assert_eq!(deps[0].version, "2.0.1");
    assert!(matches!(deps[0].kind, DependencyKind::Pip));
    assert!(deps[0].environment.is_empty());
    assert_eq!(deps[1].name, "requests");
}

#[test]
fn non_json_stdout_is_a_parse_error_not_a_crash() {
    let outcome = PipListOutcome::MalformedOutput("expected value at line 1".to_string());
    match PipListAnalyzer.analyze_output(&project(), outcome) {
        Err(AnalyzerError::FailedToParseFromJSON(m)) => {
            assert_eq!(m, "expected value at line 1")
        }
        _ => panic!("malformed output is a parse-kind error"),
    }
}

#[test]
fn spawn_failure_is_a_command_error() {
    let outcome = PipListOutcome::SpawnFailure("No such file or directory".to_string());
    match PipListAnalyzer.analyze_output(&project(), outcome) {
        Err(AnalyzerError::CommandFailed(m)) => assert_eq!(m, "No such file or directory"),
        _ => panic!("a spawn failure is a command error"),
    }
}

#[test]
fn base_dir_is_the_manifest_parent() {
    let p = SetupToolProject { manifest: "A/requirements.txt".to_string() };
    assert_eq!(p.base_dir(), "A");
    let t = p.to_project_target();
    assert_eq!(t.dir, "A");
    assert_eq!(t.manifest, "A/requirements.txt");
    let root = SetupToolProject { manifest: "/requirements.txt".to_string() };
    assert_eq!(root.base_dir(), "/");
}

#[test]
fn error_messages_match_the_taxonomy() {
    assert_eq!(
        AnalyzerError::CouldNotRead("x.txt".to_string()).message(),
        "Could not read file: x.txt"
    );
    assert_eq!(
        AnalyzerError::CouldNotExecute {
            cmd: "pip".to_string(),
            cwd: "/srv".to_string(),
            cmd_std_err: "".to_string(),
        }
        .message(),
        "Could not execute command 'pip' in directory: /srv"
    );
    assert_eq!(
        AnalyzerError::CouldNotAnalyzeErr("why".to_string()).message(),
        "Could not analyze: why"
    );
    assert_eq!(AnalyzerError::NotImplemented.message(), "Is not implemented");
    assert_eq!(
        AnalyzerError::CommandExecFailed(2, "se".to_string()).message(),
        "Is not implemented"
    );
    assert_eq!(
        AnalyzerError::CommandFailed("io".to_string()).message(),
        "Failed to execute command"
    );
    assert_eq!(
        AnalyzerError::FailedToParseFromJSON("bad".to_string()).message(),
        "Failed to parse json"
    );
}

#[test]
fn cmd_output_failure_follows_the_exit_code() {
    let ok = CmdOuput { exit_code: 0, stdout: "[]".to_string(), stderr: String::new() };
    assert!(!ok.failed());
    let bad = CmdOuput { exit_code: 1, stdout: String::new(), stderr: "boom".to_string() };
    assert!(bad.failed());
}

#[test]
fn nonzero_exit_escalates_unless_failure_is_allowed() {
    let bad = CmdOuput { exit_code: 2, stdout: "[]".to_string(), stderr: "boom".to_string() };
    match gate_output(bad, false) {
        Err(AnalyzerError::CommandExecFailed(code, stderr)) => {
            assert_eq!(code, 2);
            assert_eq!(stderr, "boom");
        }
        _ => panic!("a disallowed failure escalates"),
    }
    let bad = CmdOuput { exit_code: 2, stdout: "[]".to_string(), stderr: "boom".to_string() };
    assert!(matches!(gate_output(bad, true), Ok(s) if s == "[]"));
    let ok = CmdOuput { exit_code: 0, stdout: "[]".to_string(), stderr: String::new() };
    assert!(matches!(gate_output(ok, false), Ok(s) if s == "[]"));
}

#[test]
fn targets_classify_by_what_the_filesystem_said() {
    match classify_target("/d".to_string(), true, false) {
        Ok(Target::Directory(p)) => assert_eq!(p, "/d"),
        _ => panic!("a directory classifies as a directory"),
    }
    match classify_target("/f".to_string(), false, true) {
        Ok(Target::File(p)) => assert_eq!(p, "/f"),
        _ => panic!("a file classifies as a file"),
    }
    match classify_target("/missing".to_string(), false, false) {
        Err(p) => assert_eq!(p, "/missing"),
        Ok(_) => panic!("a path that is neither is rejected"),
    }
    let t = Target::Directory("/d".to_string());
    assert_eq!(t.path().as_str(), "/d");
}

#[test]
fn absolute_path_resolves_and_cleans() {
    let cwd = "/srv/work".to_string();
    assert_eq!(absolute_path(&"/a/b/../c".to_string(), &cwd), "/a/c");
    assert_eq!(absolute_path(&"x/./y".to_string(), &cwd), "/srv/work/x/y");
    assert_eq!(absolute_path(&"..".to_string(), &cwd), "/srv");
}

#[test]
fn discovery_builds_the_pattern_and_the_projects() {
    assert_eq!(discovery_pattern(&"/srv".to_string()), "/srv/**/*.txt");
    let projects = projects_from_paths(vec![
        "A/requirements.txt".to_string(),
        "B/requirements.txt".to_string(),
    ]);
    assert_eq!(projects.len(), 2);
    assert_eq!(projects[0].manifest, "A/requirements.txt");
    assert_eq!(projects[1].manifest, "B/requirements.txt");
}
