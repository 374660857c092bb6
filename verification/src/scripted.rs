//! A deterministic, data-driven analyzer and project. A scripted analyzer
//! returns the verdict it was built with; a scripted project runs the
//! fallback chain over its scripted analyzers. They exercise the analyzer
//! contracts without any external tool and stand in for one in tests.
use vstd::prelude::*;
use crate::analyze::{
    Analyzable, AnalysisError, AnalysisUnit, AnalyzeKind, Analyzer, AnalyzerError, AnalyzerErrorV,
    Dependency, ProjectTarget, ProjectTargetV, Scannable, analyze_with, deps_view,
};
use crate::graph::dependency_graph;

verus! {

broadcast use vstd::string::group_string_axioms;

/// An analyzer whose behaviour is fixed at construction: it reports the
/// given dependencies, or fails with the given error.
pub struct ScriptedAnalyzer {
    pub analyzer_name: &'static str,
    pub verdict: Result<Vec<Dependency>, AnalyzerError>,
}

/// Whether a scripted analyzer's run succeeds: its verdict is a package
/// list that fits the graph's index type.
pub open spec fn succeeds(a: ScriptedAnalyzer) -> bool {
    a.verdict is Ok && a.verdict->Ok_0@.len() < 0xFFFF_FFFFu32
}

/// The error a failing scripted analyzer's run carries: its scripted error,
/// or `NotImplemented` where an oversized package list cannot form a graph.
pub open spec fn failure_view(a: ScriptedAnalyzer) -> AnalyzerErrorV
    recommends
        !succeeds(a),
{
    match a.verdict {
        Err(e) => e@,
        Ok(_) => AnalyzerErrorV::NotImplemented,
    }
}

/// A project paired with a fixed target and a fixed, ordered list of
/// scripted analyzers.
pub struct ScriptedProject {
    pub target: ProjectTarget,
    pub analyzers: Vec<ScriptedAnalyzer>,
}

impl Analyzer<ScriptedProject> for ScriptedAnalyzer {
    open spec fn name_spec(&self) -> Seq<char> {
        self.analyzer_name@
    }

    fn kind(&self) -> AnalyzeKind {
        AnalyzeKind::Static
    }

    fn name(&self) -> (r: &'static str)
        ensures
            r@ == self.name_spec(),
    {
        self.analyzer_name
    }

    fn analyze(&self, project: &ScriptedProject) -> (r: Result<AnalysisUnit, AnalyzerError>)
        ensures
            r matches Ok(u) ==> u.analyzer@ == self.name_spec(),
            self.verdict matches Err(e) ==> (r matches Err(e2) && e2@ == e@),
            self.verdict matches Ok(deps) ==> (deps@.len() < 0xFFFF_FFFFu32 ==> (r matches Ok(u)
                && u.analyzer@ == self.name_spec() && u@.nodes == deps_view(deps@) && u.project
                == project.target)),
            self.verdict matches Ok(deps) ==> (deps@.len() >= 0xFFFF_FFFFu32 ==> r == Err::<
                AnalysisUnit,
                AnalyzerError,
            >(AnalyzerError::NotImplemented)),
    {
        match &self.verdict {
            Ok(deps) => {
                if deps.len() >= 0xFFFF_FFFFusize {
                    // out of room in the graph's index type
                    return Err(AnalyzerError::NotImplemented);
                }
                let g = dependency_graph(deps);
                Ok(
                    AnalysisUnit {
                        analyzer: self.analyzer_name.to_string(),
                        project: project.target.clone(),
                        graph: g,
                    },
                )
            },
            Err(e) => Err(e.clone()),
        }
    }
}

impl Analyzable for ScriptedProject {
    open spec fn wf(&self) -> bool {
        true
    }

    open spec fn target_spec(&self) -> ProjectTargetV {
        self.target@
    }

    fn analyze(&self) -> (r: Result<AnalysisUnit, AnalysisError>)
        ensures
            self.analyzers@.len() == 0 ==> (r matches Err(e)
                && e->AllMethodsFailed_0@.len() == 0),
            r matches Err(e) ==> (e matches AnalysisError::AllMethodsFailed(errs)
                && errs@.len() == self.analyzers@.len()),
            r matches Ok(u) ==> exists|i: int|
                0 <= i < self.analyzers@.len() && u.analyzer@ == self.analyzers@[i].analyzer_name@,
            forall|i: int|
                (0 <= i < self.analyzers@.len() && succeeds(#[trigger] self.analyzers@[i])
                    && (forall|j: int| 0 <= j < i ==> !succeeds(#[trigger] self.analyzers@[j])))
                    ==> {
                    &&& r matches Ok(u)
                    &&& u.analyzer@ == self.analyzers@[i].analyzer_name@
                    &&& u@.nodes == deps_view(self.analyzers@[i].verdict->Ok_0@)
                    &&& u@.project == self.target@
                },
            (forall|j: int| 0 <= j < self.analyzers@.len() ==> !succeeds(
                #[trigger] self.analyzers@[j],
            )) ==> {
                &&& r matches Err(e)
                &&& e matches AnalysisError::AllMethodsFailed(errs)
                &&& errs@.len() == self.analyzers@.len()
                &&& forall|j: int|
                    0 <= j < errs@.len() ==> (#[trigger] errs@[j])@ == failure_view(
                        self.analyzers@[j],
                    )
            },
    {
        let (r, log) = analyze_with(self, &self.analyzers);
        proof {
            let az = self.analyzers@;
            if r is Ok {
                let n = log@.len() - 1;
                assert(0 <= n < az.len());
                assert(r->Ok_0.analyzer@ == az[n].analyzer_name@);
            }
            assert forall|i: int|
                (0 <= i < az.len() && succeeds(az[i]) && (forall|j: int|
                    0 <= j < i ==> !succeeds(#[trigger] az[j]))) implies {
                &&& r matches Ok(u)
                &&& u.analyzer@ == az[i].analyzer_name@
                &&& u@.nodes == deps_view(az[i].verdict->Ok_0@)
                &&& u@.project == self.target@
            } by {
                if r is Err {
                    // every analyzer was attempted; attempt i contradicts
                    // the analyzer's own contract
                    assert(call_ensures(
                        <ScriptedAnalyzer as Analyzer<ScriptedProject>>::analyze,
                        (&az[i], self),
                        log@[i],
                    ));
                    assert(log@[i] is Err);
                    assert(false);
                }
                let n = log@.len() - 1;
                if n < i {
                    // the chain stopped on a success, yet the analyzer
                    // there cannot succeed
                    assert(call_ensures(
                        <ScriptedAnalyzer as Analyzer<ScriptedProject>>::analyze,
                        (&az[n], self),
                        log@[n],
                    ));
                    assert(log@[n] == Ok::<AnalysisUnit, AnalyzerError>(r->Ok_0));
                    assert(!succeeds(az[n]));
                    assert(log@[n] is Err);
                    assert(false);
                }
                if n > i {
                    // attempt i failed, yet the analyzer there succeeds
                    assert(call_ensures(
                        <ScriptedAnalyzer as Analyzer<ScriptedProject>>::analyze,
                        (&az[i], self),
                        log@[i],
                    ));
                    assert(log@[i] is Err);
                    assert(false);
                }
                assert(call_ensures(
                    <ScriptedAnalyzer as Analyzer<ScriptedProject>>::analyze,
                    (&az[i], self),
                    log@[i],
                ));
                assert(log@[i] == Ok::<AnalysisUnit, AnalyzerError>(r->Ok_0));
            }
            if forall|j: int| 0 <= j < az.len() ==> !succeeds(#[trigger] az[j]) {
                if r is Ok {
                    let n = log@.len() - 1;
                    assert(call_ensures(
                        <ScriptedAnalyzer as Analyzer<ScriptedProject>>::analyze,
                        (&az[n], self),
                        log@[n],
                    ));
                    assert(!succeeds(az[n]));
                    assert(log@[n] is Err);
                    assert(false);
                }
                let errs = r->Err_0->AllMethodsFailed_0;
                assert forall|j: int| 0 <= j < errs@.len() implies (#[trigger] errs@[j])@
                    == failure_view(az[j]) by {
                    assert(call_ensures(
                        <ScriptedAnalyzer as Analyzer<ScriptedProject>>::analyze,
                        (&az[j], self),
                        log@[j],
                    ));
                    assert(log@[j] is Err && log@[j]->Err_0 == errs@[j]);
                }
            }
        }
        r
    }

    fn to_target(&self) -> (t: ProjectTarget)
        ensures
            t@ == self.target_spec(),
    {
        self.target.clone()
    }
}

impl Scannable for ScriptedProject {
}

} // verus!
