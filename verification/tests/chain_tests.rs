//! The fallback-chain policy, observed through scripted analyzers.
use sbom_rs::analyze::{AnalysisError, AnalyzerError, Dependency, DependencyKind, ProjectTarget,
    ProjectTargetKind, Analyzable, analyze_with};
use sbom_rs::scripted::{ScriptedAnalyzer, ScriptedProject};

fn target(dir: &str, manifest: &str) -> ProjectTarget {
    ProjectTarget {
        dir: dir.to_string(),
        manifest: manifest.to_string(),
        kind: ProjectTargetKind::Setuptools,
    }
}

fn dep(name: &str, version: &str) -> Dependency {
    Dependency {
        kind: DependencyKind::Pip,
        name: name.to_string(),
        version: version.to_string(),
        environment: Vec::new(),
    }
}

fn ok_analyzer(name: &'static str, deps: Vec<Dependency>) -> ScriptedAnalyzer {
    ScriptedAnalyzer { analyzer_name: name, verdict: Ok(deps) }
}

fn err_analyzer(name: &'static str, e: AnalyzerError) -> ScriptedAnalyzer {
    ScriptedAnalyzer { analyzer_name: name, verdict: Err(e) }
}

#[test]
fn empty_chain_returns_empty_aggregate() {
    let project = ScriptedProject { target: target("/p", "/p/requirements.txt"), analyzers: Vec::new() };
    let res = project.analyze();
    match res {
        Err(AnalysisError::AllMethodsFailed(errs)) => assert_eq!(errs.len(), 0),
        Ok(_) => panic!("empty chain must not succeed"),
    }
}

#[test]
fn first_success_wins() {
    let project = ScriptedProject {
        target: target("/p", "/p/requirements.txt"),
        analyzers: vec![
            ok_analyzer("first", vec![dep("flask", "2.0.1")]),
            ok_analyzer("second", vec![]),
        ],
    };
    let unit = project.analyze().expect("first analyzer succeeds");
    assert_eq!(unit.analyzer, "first");
    assert_eq!(unit.dependency_count(), 1);
}

#[test]
fn fallback_reaches_next_analyzer_and_hides_earlier_errors() {
    let project = ScriptedProject {
        target: target("/p", "/p/requirements.txt"),
        analyzers: vec![
            err_analyzer("first", AnalyzerError::CouldNotRead("/p/requirements.txt".to_string())),
            ok_analyzer("second", vec![dep("flask", "2.0.1")]),
        ],
    };
    let unit = project.analyze().expect("second analyzer succeeds");
    assert_eq!(unit.analyzer, "second");
    let deps = unit.dependencies();
    assert_eq!(deps.len(), 1);
    assert_eq!(deps[0].name, "flask");
    assert_eq!(deps[0].version, "2.0.1");
}

#[test]
fn all_failures_are_aggregated_in_attempt_order() {
    let project = ScriptedProject {
        target: target("/p", "/p/requirements.txt"),
        analyzers: vec![
            err_analyzer("first", AnalyzerError::CouldNotRead("a".to_string())),
            err_analyzer("second", AnalyzerError::NotImplemented),
            err_analyzer(
                "third",
                AnalyzerError::CommandExecFailed(2, "boom".to_string()),
            ),
        ],
    };
    match project.analyze() {
        Err(AnalysisError::AllMethodsFailed(errs)) => {
            assert_eq!(errs.len(), 3);
            assert!(matches!(&errs[0], AnalyzerError::CouldNotRead(p) if p == "a"));
            assert!(matches!(&errs[1], AnalyzerError::NotImplemented));
            assert!(matches!(&errs[2], AnalyzerError::CommandExecFailed(2, s) if s == "boom"));
        }
        Ok(_) => panic!("every analyzer fails"),
    }
}

#[test]
fn chain_can_be_run_directly() {
    let project = ScriptedProject { target: target("/p", "/p/requirements.txt"), analyzers: Vec::new() };
    let analyzers = vec![
        err_analyzer("first", AnalyzerError::NotImplemented),
        err_analyzer("second", AnalyzerError::NotImplemented),
    ];
    let (res, _log) = analyze_with(&project, &analyzers);
    match res {
        Err(AnalysisError::AllMethodsFailed(errs)) => assert_eq!(errs.len(), 2),
        Ok(_) => panic!("every analyzer fails"),
    }
}
