//! The scan orchestration: one unit per discovered project, targets
//! preserved, and the concrete two-project scenario.
use sbom_rs::analyze::{AnalysisError, AnalyzerError, Dependency, DependencyKind, ProjectTarget,
    ProjectTargetKind};
use sbom_rs::scan::{analyze_projects, merge_units};
use sbom_rs::scripted::{ScriptedAnalyzer, ScriptedProject};
use sbom_rs::units::Unit;

fn target(dir: &str, manifest: &str) -> ProjectTarget {
    ProjectTarget {
        dir: dir.to_string(),
        manifest: manifest.to_string(),
        kind: ProjectTargetKind::Setuptools,
    }
}

fn dep(name: &str, version: &str) -> Dependency {
    Dependency {
        kind: DependencyKind::Pip,
        name: name.to_string(),
        version: version.to_string(),
        environment: Vec::new(),
    }
}

fn succeeding(dir: &str, deps: Vec<Dependency>) -> ScriptedProject {
    let manifest = format!("{}/requirements.txt", dir);
    ScriptedProject {
        target: target(dir, &manifest),
        analyzers: vec![ScriptedAnalyzer { analyzer_name: "stub", verdict: Ok(deps) }],
    }
}

fn failing(dir: &str) -> ScriptedProject {
    let manifest = format!("{}/requirements.txt", dir);
    ScriptedProject {
        target: target(dir, &manifest),
        analyzers: vec![
            ScriptedAnalyzer {
                analyzer_name: "stub",
                verdict: Err(AnalyzerError::CouldNotRead(manifest.clone())),
            },
        ],
    }
}

fn count_by_status(units: &[Unit], status: &str) -> usize {
    units.iter().filter(|u| u.status() == status).count()
}

#[test]
fn every_project_yields_exactly_one_unit() {
    let projects = vec![
        succeeding("/a", vec![dep("flask", "2.0.1")]),
        failing("/b"),
        succeeding("/c", vec![]),
        failing("/d"),
        failing("/e"),
    ];
    let units = analyze_projects(&projects);
    assert_eq!(units.len(), 5);
    assert_eq!(count_by_status(&units, "analyzed"), 2);
    assert_eq!(count_by_status(&units, "failed"), 3);
    assert_eq!(count_by_status(&units, "skipped"), 0);
    for (unit, project) in units.iter().zip(projects.iter()) {
        assert_eq!(unit.target.dir, project.target.dir);
        assert_eq!(unit.target.manifest, project.target.manifest);
        assert!(unit.findings.is_some());
    }
}

#[test]
fn merge_flattens_task_outputs_in_order() {
    let first = analyze_projects(&vec![succeeding("/a", vec![])]);
    let second = analyze_projects(&vec![failing("/b"), succeeding("/c", vec![])]);
    let merged = merge_units(vec![first, second]);
    assert_eq!(merged.len(), 3);
    assert_eq!(merged.0[0].target.dir, "/a");
    assert_eq!(merged.0[1].target.dir, "/b");
    assert_eq!(merged.0[2].target.dir, "/c");
}

#[test]
fn two_manifests_one_success_one_failure() {
    let projects = vec![
        succeeding("A", vec![dep("flask", "2.0.1")]),
        failing("B"),
    ];
    let units = merge_units(vec![analyze_projects(&projects)]);
    assert_eq!(units.len(), 2);

    let a = &units.0[0];
    assert_eq!(a.target.dir, "A");
    assert_eq!(a.target.manifest, "A/requirements.txt");
    let unit = match &a.findings {
        Some(Ok(u)) => u,
        _ => panic!("project A is analyzed"),
    };
    let deps = unit.dependencies();
    assert_eq!(deps.len(), 1);
    assert_eq!(deps[0].name, "flask");
    assert_eq!(deps[0].version, "2.0.1");
    assert!(matches!(deps[0].kind, DependencyKind::Pip));

    let b = &units.0[1];
    assert_eq!(b.target.dir, "B");
    match &b.findings {
        Some(Err(AnalysisError::AllMethodsFailed(errs))) => assert_eq!(errs.len(), 1),
        _ => panic!("project B fails with one error"),
    }
}

#[test]
fn summaries_follow_the_report_shape() {
    let units = merge_units(vec![analyze_projects(&vec![
        succeeding("/a", vec![]),
        failing("/b"),
    ])]);
    let lines = units.summaries();
    assert_eq!(lines, vec![
        "/a (Setuptools) [analyzed]".to_string(),
        "/b (Setuptools) [failed]".to_string(),
    ]);
    let skipped = Unit { findings: None, target: target("/s", "/s/requirements.txt") };
    assert_eq!(skipped.status(), "skipped");
    assert_eq!(skipped.summarize(), "/s (Setuptools) [skipped]");
}

#[test]
fn dependencies_compare_structurally() {
    assert_eq!(dep("flask", "2.0.1"), dep("flask", "2.0.1"));
    assert_ne!(dep("flask", "2.0.1"), dep("flask", "2.0.2"));
    assert!(dep("flask", "2.0.1") < dep("requests", "2.28.0"));
    assert!(dep("flask", "2.0.1") < dep("flask", "2.0.2"));
    let unknown = Dependency {
        kind: DependencyKind::Unknown("apt".to_string()),
        name: "curl".to_string(),
        version: "8".to_string(),
        environment: Vec::new(),
    };
    assert!(dep("zzz", "9") < unknown);
}
