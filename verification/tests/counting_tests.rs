//! A call-counting analyzer: shows the chain short-circuits on the first
//! success and touches every analyzer when all fail.
use std::cell::Cell;

use sbom_rs::analyze::{AnalysisUnit, AnalyzeKind, Analyzer, AnalyzerError, ProjectTarget,
    ProjectTargetKind, analyze_with};

struct CountingAnalyzer<'a> {
    tag: &'static str,
    fail: bool,
    calls: &'a Cell<u32>,
}

impl<'a> Analyzer<u32> for CountingAnalyzer<'a> {
    fn kind(&self) -> AnalyzeKind {
        AnalyzeKind::Static
    }

    fn name(&self) -> &'static str {
        self.tag
    }

    fn analyze(&self, _project: &u32) -> Result<AnalysisUnit, AnalyzerError> {
        self.calls.set(self.calls.get() + 1);
        if self.fail {
            Err(AnalyzerError::NotImplemented)
        } else {
            Ok(AnalysisUnit {
                analyzer: self.tag.to_string(),
                project: ProjectTarget {
                    dir: "/p".to_string(),
                    manifest: "/p/requirements.txt".to_string(),
                    kind: ProjectTargetKind::Setuptools,
                },
                graph: petgraph::graph::UnGraph::default(),
            })
        }
    }
}

#[test]
fn first_success_never_invokes_later_analyzers() {
    let first = Cell::new(0);
    let second = Cell::new(0);
    let analyzers = vec![
        CountingAnalyzer { tag: "first", fail: false, calls: &first },
        CountingAnalyzer { tag: "second", fail: false, calls: &second },
    ];
    let (res, _log) = analyze_with(&0u32, &analyzers);
    let unit = res.expect("first analyzer succeeds");
    assert_eq!(unit.analyzer, "first");
    assert_eq!(first.get(), 1);
    assert_eq!(second.get(), 0);
}

#[test]
fn exhausted_chain_invokes_each_analyzer_once() {
    let first = Cell::new(0);
    let second = Cell::new(0);
    let analyzers = vec![
        CountingAnalyzer { tag: "first", fail: true, calls: &first },
        CountingAnalyzer { tag: "second", fail: true, calls: &second },
    ];
    let (res, _log) = analyze_with(&0u32, &analyzers);
    assert!(res.is_err());
    assert_eq!(first.get(), 1);
    assert_eq!(second.get(), 1);
}

#[test]
fn failure_then_success_invokes_exactly_the_prefix() {
    let first = Cell::new(0);
    let second = Cell::new(0);
    let third = Cell::new(0);
    let analyzers = vec![
        CountingAnalyzer { tag: "first", fail: true, calls: &first },
        CountingAnalyzer { tag: "second", fail: false, calls: &second },
        CountingAnalyzer { tag: "third", fail: false, calls: &third },
    ];
    let (res, _log) = analyze_with(&0u32, &analyzers);
    let unit = res.expect("second analyzer succeeds");
    assert_eq!(unit.analyzer, "second");
    assert_eq!(first.get(), 1);
    assert_eq!(second.get(), 1);
    assert_eq!(third.get(), 0);
}
